//! The error taxonomy of the core.

use vstd::prelude::*;
use crate::result_code::SensorError;

verus! {

/// Misuse of a session's lifecycle.
#[derive(Clone, Copy, Debug, PartialEq, Eq, Structural)]
pub enum SecurityError {
    AlreadyInitialized,
    NotInitialized,
    AlreadyConnected,
    NotConnected,
    ConnectInProgress,
}

/// Why a sensor workflow stopped.
#[derive(Clone, Copy, Debug, PartialEq, Eq, Structural)]
pub enum SessionError {
    /// The session was not in the state the workflow needs.
    Security(SecurityError),
    /// The sensor reported an error.
    Sensor(SensorError),
    /// A finger was read but matched no enrolled template.
    FingerRejected,
}

/// Why two templates were not accepted as the same finger.
#[derive(Clone, Copy, Debug, PartialEq, Eq, Structural)]
pub enum TemplateError {
    /// A template with no non-zero byte has no direction.
    ZeroVector,
    /// The templates are less similar than the threshold asks.
    TemplateMismatch,
}

/// Why the exchange with the provisioning service failed.
#[derive(Clone, Copy, Debug, PartialEq, Eq, Structural)]
pub enum ProvisioningError {
    /// No client certificate is stored.
    NoCertificate,
    /// The service's answer could not be used.
    ProvisioningFailed,
}

} // verus!
