use charizhard::boot::{advance_boot, decide, start_boot, BootAction, BootDecision, BootState};

#[test]
fn decision_table() {
    assert_eq!(decide(true, true), BootDecision::FatalInconsistent);
    assert_eq!(decide(true, false), BootDecision::ProceedWithVerify);
    assert_eq!(decide(false, true), BootDecision::Proceed);
    assert_eq!(decide(false, false), BootDecision::Wipe);
}

/// Runs the boot sequence, answering each action with the next outcome (or
/// success when none is left), and returns the actions in order.
fn run(decision: BootDecision, outcomes: &[bool]) -> Vec<BootAction> {
    let (mut state, first) = start_boot(decision);
    let mut actions = vec![first];
    let mut outcomes = outcomes.iter();
    loop {
        let ok = outcomes.next().copied().unwrap_or(true);
        let (next, action) = advance_boot(state, ok);
        state = next;
        match action {
            Some(a) => actions.push(a),
            None => break,
        }
    }
    actions
}

#[test]
fn factory_state_starts_services() {
    let actions = run(decide(false, true), &[]);
    assert_eq!(actions, vec![BootAction::StartServices]);
    assert!(!actions.contains(&BootAction::ResetSensor));
    assert!(!actions.contains(&BootAction::EraseIdentity));
    assert!(!actions.contains(&BootAction::Restart));
}

#[test]
fn tampering_wipes_and_restarts_once() {
    let actions = run(decide(false, false), &[false, false, false]);
    assert_eq!(
        actions,
        vec![BootAction::ResetSensor, BootAction::EraseIdentity, BootAction::Restart]
    );
    assert_eq!(actions.iter().filter(|a| **a == BootAction::Restart).count(), 1);
    assert!(!actions.contains(&BootAction::StartServices));
}

#[test]
fn verified_boot_polls_then_refreshes_template() {
    let actions = run(decide(true, false), &[false, false, true, true, true]);
    assert_eq!(
        actions,
        vec![
            BootAction::CheckUser,
            BootAction::CheckUser,
            BootAction::CheckUser,
            BootAction::MatchTemplate,
            BootAction::StoreTemplate,
            BootAction::StartServices
        ]
    );
}

#[test]
fn template_mismatch_wipes() {
    let actions = run(decide(true, false), &[true, false, false, true]);
    assert_eq!(
        actions,
        vec![
            BootAction::CheckUser,
            BootAction::MatchTemplate,
            BootAction::ResetSensor,
            BootAction::EraseIdentity,
            BootAction::Restart
        ]
    );
}

#[test]
fn inconsistent_state_halts() {
    assert_eq!(start_boot(BootDecision::FatalInconsistent), (BootState::Halted, BootAction::Halt));
    assert_eq!(run(decide(true, true), &[]), vec![BootAction::Halt]);
}
