use charizhard::commands::{Reply, SensorCommand};
use charizhard::errors::{SecurityError, SessionError};
use charizhard::logic::{
    advance_enroll, advance_reset, check_user, complete_init, enroll_user, init,
    is_user_enrolled, reset, store_template, user_checked, user_enrolled, EnrollStage, EnrollStep,
    ResetStage, ResetStep,
};
use charizhard::result_code::{ResultCode, SensorError};
use charizhard::session::SensorCtx;

fn held() -> SensorCtx<u32, u32> {
    let mut ctx = SensorCtx::new();
    assert_eq!(init(&ctx), Ok(SensorCommand::PlatformInit));
    assert_eq!(complete_init(&mut ctx, 1, 2, 0), Ok(()));
    ctx
}

#[test]
fn handles_are_held_together() {
    let mut ctx: SensorCtx<u32, u32> = SensorCtx::new();
    assert!(!ctx.is_set());
    assert_eq!(ctx.params(), None);
    assert_eq!(ctx.chain(), None);
    ctx.set(7, 8);
    assert!(ctx.is_set());
    assert_eq!(ctx.params(), Some(&7));
    assert_eq!(ctx.chain(), Some(&8));
    ctx.set(9, 10);
    assert_eq!(ctx.params(), Some(&7));
    assert_eq!(ctx.reset(), Some((7, 8)));
    assert!(!ctx.is_set());
    assert_eq!(ctx.params(), None);
    assert_eq!(ctx.chain(), None);
    assert_eq!(ctx.reset(), None);
}

#[test]
fn second_init_is_refused() {
    let mut ctx = held();
    assert_eq!(init(&ctx), Err(SessionError::Security(SecurityError::AlreadyInitialized)));
    assert_eq!(
        complete_init(&mut ctx, 3, 4, 0),
        Err(SessionError::Security(SecurityError::AlreadyInitialized))
    );
    assert_eq!(ctx.params(), Some(&1));
    assert_eq!(ctx.chain(), Some(&2));
}

#[test]
fn failed_platform_init_stores_nothing() {
    let mut ctx: SensorCtx<u32, u32> = SensorCtx::new();
    assert_eq!(
        complete_init(&mut ctx, 1, 2, -8),
        Err(SessionError::Sensor(SensorError { code: ResultCode::IoError }))
    );
    assert!(!ctx.is_set());
}

#[test]
fn reset_of_unset_session_is_noop() {
    let mut ctx: SensorCtx<u32, u32> = SensorCtx::new();
    assert_eq!(reset(&ctx), ResetStep::Cleared);
    assert_eq!(advance_reset(&mut ctx, ResetStage::Deinit, -1), ResetStep::Cleared);
    assert!(!ctx.is_set());
}

#[test]
fn reset_runs_in_order_and_clears() {
    let mut ctx = held();
    let mut step = reset(&ctx);
    let mut sent = Vec::new();
    while let ResetStep::Next(stage) = step {
        sent.push(stage.command());
        assert!(ctx.is_set());
        step = advance_reset(&mut ctx, stage, 0);
    }
    assert_eq!(step, ResetStep::Cleared);
    assert_eq!(
        sent,
        vec![
            SensorCommand::RemoveCalibration,
            SensorCommand::RemoveAllTemplates,
            SensorCommand::HardwareReset,
            SensorCommand::PlatformDeinit
        ]
    );
    assert!(!ctx.is_set());
}

#[test]
fn reset_stops_at_first_error_and_keeps_handles() {
    let mut ctx = held();
    let step = advance_reset(&mut ctx, ResetStage::RemoveTemplates, -9);
    assert_eq!(step, ResetStep::Failed(SessionError::Sensor(SensorError { code: ResultCode::BrokenSensor })));
    assert!(ctx.is_set());
    assert_eq!(ctx.params(), Some(&1));
}

fn run_enroll(ctx: &SensorCtx<u32, u32>, count: u16, enroll_codes: &[i32]) -> (EnrollStep, Vec<SensorCommand>) {
    let mut sent = Vec::new();
    let mut attempts = enroll_codes.iter();
    let mut step = enroll_user(ctx);
    while let EnrollStep::Next(stage) = step {
        let cmd = stage.command();
        sent.push(cmd);
        let reply = match cmd {
            SensorCommand::TemplateCount => Reply::count(0, count),
            SensorCommand::EnrollFinger => Reply::status(*attempts.next().unwrap()),
            _ => Reply::status(0),
        };
        step = advance_enroll(ctx, stage, reply);
    }
    (step, sent)
}

#[test]
fn enrollment_of_empty_sensor() {
    let ctx = held();
    let (step, sent) = run_enroll(&ctx, 0, &[-1, -1, 0]);
    assert_eq!(step, EnrollStep::Enrolled);
    assert_eq!(
        sent,
        vec![
            SensorCommand::TemplateCount,
            SensorCommand::Calibrate,
            SensorCommand::SoftwareReset,
            SensorCommand::EnrollFinger,
            SensorCommand::EnrollFinger,
            SensorCommand::EnrollFinger,
            SensorCommand::SaveTemplate { template_id: 1 }
        ]
    );
}

#[test]
fn enrollment_is_idempotent() {
    let ctx = held();
    let (first, _) = run_enroll(&ctx, 0, &[0]);
    assert_eq!(first, EnrollStep::Enrolled);
    let (second, sent) = run_enroll(&ctx, 1, &[]);
    assert_eq!(second, EnrollStep::AlreadyEnrolled);
    assert_eq!(sent, vec![SensorCommand::TemplateCount]);
    assert!(!sent.iter().any(|c| matches!(c, SensorCommand::SaveTemplate { .. })));
}

#[test]
fn enrollment_aborts_on_hard_error() {
    let ctx = held();
    let (step, sent) = run_enroll(&ctx, 0, &[-1, -22]);
    assert_eq!(step, EnrollStep::Failed(SessionError::Sensor(SensorError { code: ResultCode::TooManyBadImages })));
    assert_eq!(sent.last(), Some(&SensorCommand::EnrollFinger));
}

#[test]
fn enrollment_initialises_unset_session() {
    let mut ctx: SensorCtx<u32, u32> = SensorCtx::new();
    assert_eq!(enroll_user(&ctx), EnrollStep::Next(EnrollStage::Initialize));
    assert_eq!(EnrollStage::Initialize.command(), SensorCommand::PlatformInit);
    assert_eq!(
        advance_enroll(&ctx, EnrollStage::Initialize, Reply::status(0)),
        EnrollStep::Failed(SessionError::Security(SecurityError::NotInitialized))
    );
    assert_eq!(complete_init(&mut ctx, 1, 2, 0), Ok(()));
    assert_eq!(
        advance_enroll(&ctx, EnrollStage::Initialize, Reply::status(0)),
        EnrollStep::Next(EnrollStage::CountTemplates)
    );
}

#[test]
fn queries_need_a_session() {
    let ctx: SensorCtx<u32, u32> = SensorCtx::new();
    let refused = Err(SessionError::Security(SecurityError::NotInitialized));
    assert_eq!(is_user_enrolled(&ctx), refused);
    assert_eq!(check_user(&ctx, 0), refused);
    assert_eq!(store_template(&ctx), refused);
    let ctx = held();
    assert_eq!(is_user_enrolled(&ctx), Ok(SensorCommand::TemplateCount));
    assert_eq!(
        check_user(&ctx, 3000),
        Ok(SensorCommand::IdentifyFinger { timeout_ms: 3000, template_id: 1 })
    );
    assert_eq!(store_template(&ctx), Ok(SensorCommand::GetTemplate { template_id: 1 }));
}

#[test]
fn enrolled_means_exactly_one_template() {
    assert_eq!(user_enrolled(Reply::count(0, 1)), Ok(true));
    assert_eq!(user_enrolled(Reply::count(0, 0)), Ok(false));
    assert_eq!(user_enrolled(Reply::count(0, 2)), Ok(false));
    assert_eq!(
        user_enrolled(Reply::count(-2, 1)),
        Err(SessionError::Sensor(SensorError { code: ResultCode::InternalError }))
    );
}

#[test]
fn finger_check_outcomes_are_distinct() {
    assert_eq!(user_checked(Reply::identify(0, true)), Ok(()));
    assert_eq!(user_checked(Reply::identify(0, false)), Err(SessionError::FingerRejected));
    assert_eq!(
        user_checked(Reply::identify(-11, false)),
        Err(SessionError::Sensor(SensorError { code: ResultCode::Timeout }))
    );
}
