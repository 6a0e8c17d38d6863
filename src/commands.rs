//! The sensor's command set and how the status of each command is read.

use vstd::prelude::*;
use crate::result_code::{SensorError, sensor_error, STATUS_OK, STATUS_GENERAL_ERROR};

verus! {

/// The slot that holds the one enrolled template.
pub const TEMPLATE_SLOT: u16 = 1;

/// The timeout, in milliseconds, given to a finger check.
pub const CHECK_TIMEOUT_MS: u32 = 3000;

/// A command sent to the fingerprint sensor.
#[derive(Clone, Copy, Debug, PartialEq, Eq, Structural)]
pub enum SensorCommand {
    /// Bring up the transport on freshly allocated handles.
    PlatformInit,
    /// Shut the transport down.
    PlatformDeinit,
    Calibrate,
    RemoveCalibration,
    HardwareReset,
    SoftwareReset,
    RemoveAllTemplates,
    TemplateCount,
    EnrollFinger,
    SaveTemplate { template_id: u16 },
    /// Capture a finger and identify it; a timeout of 0 waits forever.
    IdentifyFinger { timeout_ms: u32, template_id: u16 },
    /// Load a template from flash into RAM and read it out.
    GetTemplate { template_id: u16 },
}

/// What the sensor answered to a command: its raw status, and the payload of
/// the commands that have one (the template count, whether a finger matched).
#[derive(Clone, Copy, Debug, PartialEq, Eq, Structural)]
pub struct Reply {
    pub code: i32,
    pub count: u16,
    pub matched: bool,
}

impl Reply {
    /// The reply of a command without payload.
    pub fn status(code: i32) -> (r: Reply)
        ensures
            r == (Reply { code, count: 0, matched: false }),
    {
        Reply { code, count: 0, matched: false }
    }

    /// The reply of a template count.
    pub fn count(code: i32, count: u16) -> (r: Reply)
        ensures
            r == (Reply { code, count, matched: false }),
    {
        Reply { code, count, matched: false }
    }

    /// The reply of a finger identification.
    pub fn identify(code: i32, matched: bool) -> (r: Reply)
        ensures
            r == (Reply { code, count: 0, matched }),
    {
        Reply { code, count: 0, matched }
    }
}

/// Reads the status of a command without payload: success only on the OK
/// status, otherwise the error that the status reports.
pub fn check_status(code: i32) -> (r: Result<(), SensorError>)
    ensures
        code == STATUS_OK ==> r == Ok::<(), SensorError>(()),
        code != STATUS_OK ==> r == Err::<(), SensorError>(sensor_error(code)),
{
    if code == STATUS_OK {
        Ok(())
    } else {
        Err(SensorError::from_raw(code))
    }
}

/// Reads the reply of a template count.
pub fn template_count(code: i32, count: u16) -> (r: Result<u16, SensorError>)
    ensures
        code == STATUS_OK ==> r == Ok::<u16, SensorError>(count),
        code != STATUS_OK ==> r == Err::<u16, SensorError>(sensor_error(code)),
{
    match check_status(code) {
        Ok(()) => Ok(count),
        Err(e) => Err(e),
    }
}

/// Reads the reply of a finger identification: whether the finger matched,
/// or the error that kept the sensor from telling.
pub fn identify_finger(code: i32, is_match: bool) -> (r: Result<bool, SensorError>)
    ensures
        code == STATUS_OK ==> r == Ok::<bool, SensorError>(is_match),
        code != STATUS_OK ==> r == Err::<bool, SensorError>(sensor_error(code)),
{
    match check_status(code) {
        Ok(()) => Ok(is_match),
        Err(e) => Err(e),
    }
}

/// What one enrollment attempt leads to.
#[derive(Clone, Copy, Debug, PartialEq, Eq, Structural)]
pub enum EnrollAttempt {
    /// The finger was enrolled.
    Enrolled,
    /// A transient error: try again (the finger was not placed right).
    Retry,
    /// A hard error that ends the enrollment.
    Failed(SensorError),
}

/// The enrollment policy, for the status of one attempt: done on OK, again on
/// a general error, stop on any other error.
pub fn enroll_finger(code: i32) -> (r: EnrollAttempt)
    ensures
        code == STATUS_OK ==> r == EnrollAttempt::Enrolled,
        code == STATUS_GENERAL_ERROR ==> r == EnrollAttempt::Retry,
        code != STATUS_OK && code != STATUS_GENERAL_ERROR ==> r == EnrollAttempt::Failed(
            sensor_error(code),
        ),
{
    if code == STATUS_OK {
        EnrollAttempt::Enrolled
    } else if code == STATUS_GENERAL_ERROR {
        EnrollAttempt::Retry
    } else {
        EnrollAttempt::Failed(SensorError::from_raw(code))
    }
}

} // verus!
