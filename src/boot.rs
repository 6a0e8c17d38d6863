//! The boot-time security policy: from whether a user is enrolled and
//! whether a tunnel identity is stored, decide how the device may start, and
//! drive that decision to its end.

use vstd::prelude::*;

verus! {

/// What the device does at boot.
#[derive(Clone, Copy, Debug, PartialEq, Eq, Structural)]
pub enum BootDecision {
    /// No identity and no enrollment: factory state.
    Proceed,
    /// Identity and enrollment: check the finger and the template first.
    ProceedWithVerify,
    /// An enrollment without identity: inconsistent, kept apart as its own
    /// state.
    FatalInconsistent,
    /// An identity without enrollment: tampering, wipe the device.
    Wipe,
}

/// The decision table.
pub open spec fn decision(enrolled: bool, identity_empty: bool) -> BootDecision {
    if enrolled {
        if identity_empty { BootDecision::FatalInconsistent } else { BootDecision::ProceedWithVerify }
    } else {
        if identity_empty { BootDecision::Proceed } else { BootDecision::Wipe }
    }
}

/// Decides how the device boots.
pub fn decide(enrolled: bool, identity_empty: bool) -> (r: BootDecision)
    ensures
        r == decision(enrolled, identity_empty),
        enrolled && identity_empty ==> r == BootDecision::FatalInconsistent,
        enrolled && !identity_empty ==> r == BootDecision::ProceedWithVerify,
        !enrolled && identity_empty ==> r == BootDecision::Proceed,
        !enrolled && !identity_empty ==> r == BootDecision::Wipe,
{
    match (enrolled, identity_empty) {
        (true, true) => BootDecision::FatalInconsistent,
        (true, false) => BootDecision::ProceedWithVerify,
        (false, true) => BootDecision::Proceed,
        (false, false) => BootDecision::Wipe,
    }
}

/// The decision table, over all four inputs.
pub proof fn lemma_decision_table()
    ensures
        decision(true, true) == BootDecision::FatalInconsistent,
        decision(true, false) == BootDecision::ProceedWithVerify,
        decision(false, true) == BootDecision::Proceed,
        decision(false, false) == BootDecision::Wipe,
{
}

/// Something the boot sequence asks the platform to do.
#[derive(Clone, Copy, Debug, PartialEq, Eq, Structural)]
pub enum BootAction {
    /// Start the network-facing services; the boot sequence is over.
    StartServices,
    /// Stop without starting anything: the state is inconsistent.
    Halt,
    /// Wait for a finger and check it.
    CheckUser,
    /// Compare the live template with the mirrored one.
    MatchTemplate,
    /// Mirror the live template into persistence.
    StoreTemplate,
    /// Factory-reset the sensor.
    ResetSensor,
    /// Erase every persisted identity and configuration.
    EraseIdentity,
    /// Restart the device.
    Restart,
}

/// Where the boot sequence stands.
#[derive(Clone, Copy, Debug, PartialEq, Eq, Structural)]
pub enum BootState {
    Verifying,
    Matching,
    Storing,
    WipingSensor,
    Erasing,
    /// The restart was issued; nothing runs after it.
    Restarted,
    /// Services were started.
    Started,
    Halted,
}

/// The state and action that a decision begins with.
pub open spec fn boot_begin(d: BootDecision) -> (BootState, BootAction) {
    match d {
        BootDecision::Proceed => (BootState::Started, BootAction::StartServices),
        BootDecision::ProceedWithVerify => (BootState::Verifying, BootAction::CheckUser),
        BootDecision::FatalInconsistent => (BootState::Halted, BootAction::Halt),
        BootDecision::Wipe => (BootState::WipingSensor, BootAction::ResetSensor),
    }
}

/// After the last action succeeded (`ok`) or failed: the finger check is
/// retried until it passes; a template mismatch wipes; the wipe goes on to
/// erase and restart whether or not the sensor reset worked; a finished
/// sequence asks for nothing more.
pub open spec fn boot_transition(s: BootState, ok: bool) -> (BootState, Option<BootAction>) {
    match s {
        BootState::Verifying => if ok {
            (BootState::Matching, Some(BootAction::MatchTemplate))
        } else {
            (BootState::Verifying, Some(BootAction::CheckUser))
        },
        BootState::Matching => if ok {
            (BootState::Storing, Some(BootAction::StoreTemplate))
        } else {
            (BootState::WipingSensor, Some(BootAction::ResetSensor))
        },
        BootState::Storing => if ok {
            (BootState::Started, Some(BootAction::StartServices))
        } else {
            (BootState::Halted, Some(BootAction::Halt))
        },
        BootState::WipingSensor => (BootState::Erasing, Some(BootAction::EraseIdentity)),
        BootState::Erasing => (BootState::Restarted, Some(BootAction::Restart)),
        BootState::Restarted => (BootState::Restarted, None),
        BootState::Started => (BootState::Started, None),
        BootState::Halted => (BootState::Halted, None),
    }
}

/// Begins the boot sequence of a decision.
pub fn start_boot(d: BootDecision) -> (r: (BootState, BootAction))
    ensures
        r == boot_begin(d),
{
    match d {
        BootDecision::Proceed => (BootState::Started, BootAction::StartServices),
        BootDecision::ProceedWithVerify => (BootState::Verifying, BootAction::CheckUser),
        BootDecision::FatalInconsistent => (BootState::Halted, BootAction::Halt),
        BootDecision::Wipe => (BootState::WipingSensor, BootAction::ResetSensor),
    }
}

/// Moves the boot sequence on after its last action succeeded or failed.
pub fn advance_boot(s: BootState, ok: bool) -> (r: (BootState, Option<BootAction>))
    ensures
        r == boot_transition(s, ok),
{
    match s {
        BootState::Verifying => {
            if ok {
                (BootState::Matching, Some(BootAction::MatchTemplate))
            } else {
                (BootState::Verifying, Some(BootAction::CheckUser))
            }
        },
        BootState::Matching => {
            if ok {
                (BootState::Storing, Some(BootAction::StoreTemplate))
            } else {
                (BootState::WipingSensor, Some(BootAction::ResetSensor))
            }
        },
        BootState::Storing => {
            if ok {
                (BootState::Started, Some(BootAction::StartServices))
            } else {
                (BootState::Halted, Some(BootAction::Halt))
            }
        },
        BootState::WipingSensor => (BootState::Erasing, Some(BootAction::EraseIdentity)),
        BootState::Erasing => (BootState::Restarted, Some(BootAction::Restart)),
        BootState::Restarted => (BootState::Restarted, None),
        BootState::Started => (BootState::Started, None),
        BootState::Halted => (BootState::Halted, None),
    }
}

/// Factory state boots straight into the services, with nothing destroyed.
pub proof fn lemma_factory_state_starts()
    ensures
        boot_begin(decision(false, true)) == (BootState::Started, BootAction::StartServices),
        boot_transition(BootState::Started, true).1 is None,
        boot_transition(BootState::Started, false).1 is None,
{
}

/// A wipe resets the sensor, erases the persisted identity and restarts,
/// in that order and whatever each step reports; after the restart nothing
/// more is asked, so the restart is issued exactly once.
pub proof fn lemma_wipe_sequence(ok1: bool, ok2: bool, ok3: bool)
    ensures
        boot_begin(decision(false, false)) == (BootState::WipingSensor, BootAction::ResetSensor),
        boot_transition(BootState::WipingSensor, ok1) == (
            BootState::Erasing,
            Some(BootAction::EraseIdentity),
        ),
        boot_transition(BootState::Erasing, ok2) == (BootState::Restarted, Some(BootAction::Restart)),
        boot_transition(BootState::Restarted, ok3) == (BootState::Restarted, None::<BootAction>),
{
}

/// Services start only once the sequence has finished deciding: every step
/// that asks to start them ends in the started state, which asks for nothing
/// more; no wipe step leads to them.
pub proof fn lemma_services_start_last(s: BootState, ok: bool)
    ensures
        boot_transition(s, ok).1 == Some(BootAction::StartServices) ==> boot_transition(s, ok).0
            == BootState::Started && s == BootState::Storing,
        s == BootState::WipingSensor || s == BootState::Erasing || s == BootState::Restarted
            ==> boot_transition(s, ok).1 != Some(BootAction::StartServices),
{
}

} // verus!
