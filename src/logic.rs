//! The sensor workflows: initialisation, factory reset, enrollment and
//! finger checks. Each runs as a sequence of sensor commands; the functions
//! here decide, from the session and the reply to the last command, what the
//! next command is or how the workflow ends. The caller issues the commands
//! while it holds the session.

use vstd::prelude::*;
use crate::commands::{SensorCommand, Reply, EnrollAttempt, enroll_finger, TEMPLATE_SLOT};
use crate::errors::{SecurityError, SessionError};
use crate::result_code::{SensorError, sensor_error, STATUS_OK, STATUS_GENERAL_ERROR};
use crate::session::SensorCtx;

verus! {

/// A workflow refused because of the session's state.
pub open spec fn refused(e: SecurityError) -> SessionError {
    SessionError::Security(e)
}

/// A workflow stopped by the error a raw status reports.
pub open spec fn failed(code: i32) -> SessionError {
    SessionError::Sensor(sensor_error(code))
}

// ----- initialisation -----

/// How a request to initialise is answered: refused when the session is
/// already held, else by bringing the transport up on fresh handles.
pub open spec fn init_start(held: bool) -> Result<SensorCommand, SessionError> {
    if held {
        Err(refused(SecurityError::AlreadyInitialized))
    } else {
        Ok(SensorCommand::PlatformInit)
    }
}

/// The handles the session holds after the platform init call on fresh
/// handles answered `code`, and the outcome.
pub open spec fn init_transition<P, C>(
    held: Option<(P, C)>,
    params: P,
    chain: C,
    code: i32,
) -> (Option<(P, C)>, Result<(), SessionError>) {
    if held is Some {
        (held, Err(refused(SecurityError::AlreadyInitialized)))
    } else if code == STATUS_OK {
        (Some((params, chain)), Ok(()))
    } else {
        (None, Err(failed(code)))
    }
}

/// Starts initialising the sensor.
pub fn init<P, C>(ctx: &SensorCtx<P, C>) -> (r: Result<SensorCommand, SessionError>)
    ensures
        r == init_start(ctx.held()),
{
    if ctx.is_set() {
        Err(SessionError::Security(SecurityError::AlreadyInitialized))
    } else {
        Ok(SensorCommand::PlatformInit)
    }
}

/// Finishes initialising: the fresh handles are stored only when the platform
/// init call on them succeeded; otherwise they are released here.
pub fn complete_init<P, C>(ctx: &mut SensorCtx<P, C>, params: P, chain: C, code: i32) -> (r: Result<(), SessionError>)
    ensures
        (final(ctx).handles(), r) == init_transition(old(ctx).handles(), params, chain, code),
{
    if ctx.is_set() {
        return Err(SessionError::Security(SecurityError::AlreadyInitialized));
    }
    if code == STATUS_OK {
        ctx.set(params, chain);
        Ok(())
    } else {
        Err(SessionError::Sensor(SensorError::from_raw(code)))
    }
}

// ----- factory reset -----

/// The stages of a factory reset, in the order they run.
#[derive(Clone, Copy, Debug, PartialEq, Eq, Structural)]
pub enum ResetStage {
    RemoveCalibration,
    RemoveTemplates,
    HardwareReset,
    Deinit,
}

/// Where a factory reset stands.
#[derive(Clone, Copy, Debug, PartialEq, Eq, Structural)]
pub enum ResetStep {
    /// Issue the command of this stage and report its status.
    Next(ResetStage),
    /// The session holds nothing any more.
    Cleared,
    /// The reset stopped; the session still holds its handles.
    Failed(SessionError),
}

pub open spec fn reset_command(stage: ResetStage) -> SensorCommand {
    match stage {
        ResetStage::RemoveCalibration => SensorCommand::RemoveCalibration,
        ResetStage::RemoveTemplates => SensorCommand::RemoveAllTemplates,
        ResetStage::HardwareReset => SensorCommand::HardwareReset,
        ResetStage::Deinit => SensorCommand::PlatformDeinit,
    }
}

pub open spec fn reset_start(held: bool) -> ResetStep {
    if held {
        ResetStep::Next(ResetStage::RemoveCalibration)
    } else {
        ResetStep::Cleared
    }
}

/// After the command of `stage` answered `code`: the first error stops the
/// reset, each success moves to the next stage, and the last one clears
/// the session. A session that holds nothing has nothing left to reset.
pub open spec fn reset_transition(held: bool, stage: ResetStage, code: i32) -> ResetStep {
    if !held {
        ResetStep::Cleared
    } else if code != STATUS_OK {
        ResetStep::Failed(failed(code))
    } else {
        match stage {
            ResetStage::RemoveCalibration => ResetStep::Next(ResetStage::RemoveTemplates),
            ResetStage::RemoveTemplates => ResetStep::Next(ResetStage::HardwareReset),
            ResetStage::HardwareReset => ResetStep::Next(ResetStage::Deinit),
            ResetStage::Deinit => ResetStep::Cleared,
        }
    }
}

impl ResetStage {
    /// The command this stage sends.
    pub fn command(&self) -> (r: SensorCommand)
        ensures
            r == reset_command(*self),
    {
        match self {
            ResetStage::RemoveCalibration => SensorCommand::RemoveCalibration,
            ResetStage::RemoveTemplates => SensorCommand::RemoveAllTemplates,
            ResetStage::HardwareReset => SensorCommand::HardwareReset,
            ResetStage::Deinit => SensorCommand::PlatformDeinit,
        }
    }
}

/// Starts a factory reset: nothing to do on a session that holds nothing.
pub fn reset<P, C>(ctx: &SensorCtx<P, C>) -> (r: ResetStep)
    ensures
        r == reset_start(ctx.held()),
{
    if ctx.is_set() {
        ResetStep::Next(ResetStage::RemoveCalibration)
    } else {
        ResetStep::Cleared
    }
}

/// Moves a factory reset on after the command of `stage` answered `code`.
/// The handles are released exactly when the reset ends cleared.
pub fn advance_reset<P, C>(ctx: &mut SensorCtx<P, C>, stage: ResetStage, code: i32) -> (r: ResetStep)
    ensures
        r == reset_transition(old(ctx).held(), stage, code),
        r is Cleared ==> final(ctx).handles() is None,
        !(r is Cleared) ==> final(ctx).handles() == old(ctx).handles(),
{
    if !ctx.is_set() {
        return ResetStep::Cleared;
    }
    if code != STATUS_OK {
        return ResetStep::Failed(SessionError::Sensor(SensorError::from_raw(code)));
    }
    match stage {
        ResetStage::RemoveCalibration => ResetStep::Next(ResetStage::RemoveTemplates),
        ResetStage::RemoveTemplates => ResetStep::Next(ResetStage::HardwareReset),
        ResetStage::HardwareReset => ResetStep::Next(ResetStage::Deinit),
        ResetStage::Deinit => {
            let _released = ctx.reset();
            ResetStep::Cleared
        },
    }
}

// ----- enrollment -----

/// The stages of enrolling a user.
#[derive(Clone, Copy, Debug, PartialEq, Eq, Structural)]
pub enum EnrollStage {
    /// The session is not held yet: initialise it first.
    Initialize,
    CountTemplates,
    Calibrate,
    SoftwareReset,
    /// Capture the finger; repeated while the sensor asks for another try.
    EnrollFinger,
    SaveTemplate,
}

/// Where an enrollment stands.
#[derive(Clone, Copy, Debug, PartialEq, Eq, Structural)]
pub enum EnrollStep {
    /// Issue the command of this stage and report its reply.
    Next(EnrollStage),
    /// A new template was saved in the enrollment slot.
    Enrolled,
    /// A template was already stored; nothing was changed.
    AlreadyEnrolled,
    Failed(SessionError),
}

pub open spec fn enroll_command(stage: EnrollStage) -> SensorCommand {
    match stage {
        EnrollStage::Initialize => SensorCommand::PlatformInit,
        EnrollStage::CountTemplates => SensorCommand::TemplateCount,
        EnrollStage::Calibrate => SensorCommand::Calibrate,
        EnrollStage::SoftwareReset => SensorCommand::SoftwareReset,
        EnrollStage::EnrollFinger => SensorCommand::EnrollFinger,
        EnrollStage::SaveTemplate => SensorCommand::SaveTemplate { template_id: TEMPLATE_SLOT },
    }
}

pub open spec fn enroll_start(held: bool) -> EnrollStep {
    if held {
        EnrollStep::Next(EnrollStage::CountTemplates)
    } else {
        EnrollStep::Next(EnrollStage::Initialize)
    }
}

/// After the command of `stage` got `reply`: enrollment only goes on from an
/// empty template store, retries the capture on a general error, and stops
/// at the first other error.
pub open spec fn enroll_transition(held: bool, stage: EnrollStage, reply: Reply) -> EnrollStep {
    if reply.code != STATUS_OK && !(stage == EnrollStage::EnrollFinger
        && reply.code == STATUS_GENERAL_ERROR) {
        EnrollStep::Failed(failed(reply.code))
    } else if !held {
        EnrollStep::Failed(refused(SecurityError::NotInitialized))
    } else {
        match stage {
            EnrollStage::Initialize => EnrollStep::Next(EnrollStage::CountTemplates),
            EnrollStage::CountTemplates => if reply.count == 0 {
                EnrollStep::Next(EnrollStage::Calibrate)
            } else {
                EnrollStep::AlreadyEnrolled
            },
            EnrollStage::Calibrate => EnrollStep::Next(EnrollStage::SoftwareReset),
            EnrollStage::SoftwareReset => EnrollStep::Next(EnrollStage::EnrollFinger),
            EnrollStage::EnrollFinger => if reply.code == STATUS_OK {
                EnrollStep::Next(EnrollStage::SaveTemplate)
            } else {
                EnrollStep::Next(EnrollStage::EnrollFinger)
            },
            EnrollStage::SaveTemplate => EnrollStep::Enrolled,
        }
    }
}

impl EnrollStage {
    /// The command this stage sends; at `Initialize` the whole
    /// initialisation runs and its status is reported.
    pub fn command(&self) -> (r: SensorCommand)
        ensures
            r == enroll_command(*self),
    {
        match self {
            EnrollStage::Initialize => SensorCommand::PlatformInit,
            EnrollStage::CountTemplates => SensorCommand::TemplateCount,
            EnrollStage::Calibrate => SensorCommand::Calibrate,
            EnrollStage::SoftwareReset => SensorCommand::SoftwareReset,
            EnrollStage::EnrollFinger => SensorCommand::EnrollFinger,
            EnrollStage::SaveTemplate => SensorCommand::SaveTemplate { template_id: TEMPLATE_SLOT },
        }
    }
}

/// Starts enrolling a user, initialising the session first when needed.
pub fn enroll_user<P, C>(ctx: &SensorCtx<P, C>) -> (r: EnrollStep)
    ensures
        r == enroll_start(ctx.held()),
{
    if ctx.is_set() {
        EnrollStep::Next(EnrollStage::CountTemplates)
    } else {
        EnrollStep::Next(EnrollStage::Initialize)
    }
}

/// Moves an enrollment on after the command of `stage` got `reply`.
pub fn advance_enroll<P, C>(ctx: &SensorCtx<P, C>, stage: EnrollStage, reply: Reply) -> (r: EnrollStep)
    ensures
        r == enroll_transition(ctx.held(), stage, reply),
{
    if stage == EnrollStage::EnrollFinger {
        match enroll_finger(reply.code) {
            EnrollAttempt::Failed(e) => {
                return EnrollStep::Failed(SessionError::Sensor(e));
            },
            _ => {},
        }
    } else if reply.code != STATUS_OK {
        return EnrollStep::Failed(SessionError::Sensor(SensorError::from_raw(reply.code)));
    }
    if !ctx.is_set() {
        return EnrollStep::Failed(SessionError::Security(SecurityError::NotInitialized));
    }
    match stage {
        EnrollStage::Initialize => EnrollStep::Next(EnrollStage::CountTemplates),
        EnrollStage::CountTemplates => {
            if reply.count == 0 {
                EnrollStep::Next(EnrollStage::Calibrate)
            } else {
                EnrollStep::AlreadyEnrolled
            }
        },
        EnrollStage::Calibrate => EnrollStep::Next(EnrollStage::SoftwareReset),
        EnrollStage::SoftwareReset => EnrollStep::Next(EnrollStage::EnrollFinger),
        EnrollStage::EnrollFinger => {
            if reply.code == STATUS_OK {
                EnrollStep::Next(EnrollStage::SaveTemplate)
            } else {
                EnrollStep::Next(EnrollStage::EnrollFinger)
            }
        },
        EnrollStage::SaveTemplate => EnrollStep::Enrolled,
    }
}

// ----- queries on an initialised session -----

/// The command a query sends, or `NotInitialized` when the session holds
/// nothing.
pub open spec fn query_start(held: bool, command: SensorCommand) -> Result<SensorCommand, SessionError> {
    if held {
        Ok(command)
    } else {
        Err(refused(SecurityError::NotInitialized))
    }
}

/// Starts checking whether exactly one user is enrolled.
pub fn is_user_enrolled<P, C>(ctx: &SensorCtx<P, C>) -> (r: Result<SensorCommand, SessionError>)
    ensures
        r == query_start(ctx.held(), SensorCommand::TemplateCount),
{
    if ctx.is_set() {
        Ok(SensorCommand::TemplateCount)
    } else {
        Err(SessionError::Security(SecurityError::NotInitialized))
    }
}

/// Whether exactly one user is enrolled, from the reply of the template count.
pub fn user_enrolled(reply: Reply) -> (r: Result<bool, SessionError>)
    ensures
        reply.code == STATUS_OK ==> r == Ok::<bool, SessionError>(reply.count == 1),
        reply.code != STATUS_OK ==> r == Err::<bool, SessionError>(failed(reply.code)),
{
    if reply.code == STATUS_OK {
        Ok(reply.count == 1)
    } else {
        Err(SessionError::Sensor(SensorError::from_raw(reply.code)))
    }
}

/// Starts checking a finger against the enrolled template, waiting at most
/// `timeout_ms` milliseconds for it (0: forever).
pub fn check_user<P, C>(ctx: &SensorCtx<P, C>, timeout_ms: u32) -> (r: Result<SensorCommand, SessionError>)
    ensures
        r == query_start(
            ctx.held(),
            SensorCommand::IdentifyFinger { timeout_ms, template_id: TEMPLATE_SLOT },
        ),
{
    if ctx.is_set() {
        Ok(SensorCommand::IdentifyFinger { timeout_ms, template_id: TEMPLATE_SLOT })
    } else {
        Err(SessionError::Security(SecurityError::NotInitialized))
    }
}

/// The outcome of a finger check, from the reply of the identification: a
/// finger that matched no template and a sensor error are told apart.
pub fn user_checked(reply: Reply) -> (r: Result<(), SessionError>)
    ensures
        reply.code == STATUS_OK && reply.matched ==> r == Ok::<(), SessionError>(()),
        reply.code == STATUS_OK && !reply.matched ==> r == Err::<(), SessionError>(
            SessionError::FingerRejected,
        ),
        reply.code != STATUS_OK ==> r == Err::<(), SessionError>(failed(reply.code)),
{
    if reply.code != STATUS_OK {
        Err(SessionError::Sensor(SensorError::from_raw(reply.code)))
    } else if reply.matched {
        Ok(())
    } else {
        Err(SessionError::FingerRejected)
    }
}

/// Starts reading the enrolled template off the sensor, to mirror it or to
/// compare it with the mirrored copy.
pub fn store_template<P, C>(ctx: &SensorCtx<P, C>) -> (r: Result<SensorCommand, SessionError>)
    ensures
        r == query_start(ctx.held(), SensorCommand::GetTemplate { template_id: TEMPLATE_SLOT }),
{
    if ctx.is_set() {
        Ok(SensorCommand::GetTemplate { template_id: TEMPLATE_SLOT })
    } else {
        Err(SessionError::Security(SecurityError::NotInitialized))
    }
}

// ----- laws -----

/// A second initialisation without a reset in between is refused with
/// `AlreadyInitialized`, and the handles of the first one stay as they are.
pub proof fn lemma_init_twice<P, C>(p1: P, c1: C, code1: i32, p2: P, c2: C, code2: i32)
    requires
        init_transition(None::<(P, C)>, p1, c1, code1).1 is Ok,
    ensures
        ({
            let first = init_transition(None::<(P, C)>, p1, c1, code1).0;
            &&& first == Some((p1, c1))
            &&& init_start(first is Some) == Err::<SensorCommand, SessionError>(
                refused(SecurityError::AlreadyInitialized),
            )
            &&& init_transition(first, p2, c2, code2) == (
                first,
                Err::<(), SessionError>(refused(SecurityError::AlreadyInitialized)),
            )
        }),
{
}

/// A reset of a session that holds nothing succeeds at once and sends no
/// command.
pub proof fn lemma_reset_unset_is_noop()
    ensures
        reset_start(false) == ResetStep::Cleared,
        forall|stage: ResetStage, code: i32| reset_transition(false, stage, code) == ResetStep::Cleared,
{
}

/// A reset of a held session removes the calibration, removes all templates,
/// resets the hardware and shuts the transport down, in that order; when all
/// of them succeed it ends cleared, and the first failure stops it with that
/// failure.
pub proof fn lemma_reset_sequence(code: i32)
    ensures
        reset_start(true) == ResetStep::Next(ResetStage::RemoveCalibration),
        reset_transition(true, ResetStage::RemoveCalibration, STATUS_OK) == ResetStep::Next(
            ResetStage::RemoveTemplates,
        ),
        reset_transition(true, ResetStage::RemoveTemplates, STATUS_OK) == ResetStep::Next(
            ResetStage::HardwareReset,
        ),
        reset_transition(true, ResetStage::HardwareReset, STATUS_OK) == ResetStep::Next(
            ResetStage::Deinit,
        ),
        reset_transition(true, ResetStage::Deinit, STATUS_OK) == ResetStep::Cleared,
        reset_command(ResetStage::RemoveCalibration) == SensorCommand::RemoveCalibration,
        reset_command(ResetStage::RemoveTemplates) == SensorCommand::RemoveAllTemplates,
        reset_command(ResetStage::HardwareReset) == SensorCommand::HardwareReset,
        reset_command(ResetStage::Deinit) == SensorCommand::PlatformDeinit,
        code != STATUS_OK ==> forall|stage: ResetStage|
            reset_transition(true, stage, code) == ResetStep::Failed(failed(code)),
{
}

/// Enrolling while a template is already stored changes nothing: the
/// workflow ends after the count, before any command that writes a template.
/// A template is saved only after a capture that followed an empty count.
pub proof fn lemma_enroll_idempotent(reply: Reply)
    requires
        reply.code == STATUS_OK,
        reply.count >= 1,
    ensures
        enroll_transition(true, EnrollStage::CountTemplates, reply) == EnrollStep::AlreadyEnrolled,
        forall|held: bool, stage: EnrollStage, r: Reply|
            enroll_transition(held, stage, r) == EnrollStep::Next(EnrollStage::SaveTemplate)
                ==> stage == EnrollStage::EnrollFinger && r.code == STATUS_OK,
        forall|held: bool, stage: EnrollStage, r: Reply|
            enroll_transition(held, stage, r) == EnrollStep::Next(EnrollStage::Calibrate)
                ==> stage == EnrollStage::CountTemplates && r.count == 0,
{
}

} // verus!
