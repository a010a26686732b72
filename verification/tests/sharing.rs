use flavortime::services::flavortown::HeartbeatOutcome;
use flavortime::sharing::{
    accumulate_sharing_seconds, can_report, heartbeat_idle, session_active, Accrual, HeartbeatReply,
    HeartbeatRun, HeartbeatStep, Phase, SharingSession,
};
use flavortime::seconds_since;

fn key() -> Option<String> {
    Some("secret-key".to_string())
}

fn expect_send(step: HeartbeatStep) -> (String, u64) {
    match step {
        HeartbeatStep::SendHeartbeat { fingerprint, seconds } => (fingerprint, seconds),
        _ => panic!("expected a heartbeat to be sent"),
    }
}

#[test]
fn seconds_since_never_goes_negative() {
    assert_eq!(seconds_since(10, 4), 6);
    assert_eq!(seconds_since(4, 10), 0);
    assert_eq!(seconds_since(u64::MAX, 0), u64::MAX);
}

#[test]
fn first_poll_only_sets_the_tick() {
    let mut session = SharingSession::new();
    let accrual = accumulate_sharing_seconds(&mut session, 1_000, true);
    assert_eq!(accrual, Accrual { total: 0, changed: false });
    assert_eq!(session.last_tick, Some(1_000));
}

#[test]
fn inactive_then_active_poll_credits_current_gap() {
    let t0: u64 = 50_000;
    let mut session = SharingSession::new();
    accumulate_sharing_seconds(&mut session, t0 - 10, true);
    let idle = accumulate_sharing_seconds(&mut session, t0, false);
    assert_eq!(idle.total, 0);
    assert!(!idle.changed);
    assert_eq!(session.last_tick, Some(t0));
    let active = accumulate_sharing_seconds(&mut session, t0 + 30, true);
    assert_eq!(active, Accrual { total: 30, changed: true });
    assert_eq!(session.accrued_seconds, 30);
    assert_eq!(session.last_tick, Some(t0 + 30));
}

#[test]
fn credit_is_capped_per_tick() {
    let mut session = SharingSession::new();
    accumulate_sharing_seconds(&mut session, 100, true);
    assert_eq!(accumulate_sharing_seconds(&mut session, 219, true).total, 119);
    assert_eq!(accumulate_sharing_seconds(&mut session, 339, true).total, 239);
    assert_eq!(accumulate_sharing_seconds(&mut session, 460, true).total, 359);
    assert_eq!(accumulate_sharing_seconds(&mut session, 100_000, true).total, 479);
}

#[test]
fn clock_jump_backwards_credits_nothing() {
    let mut session = SharingSession::new();
    accumulate_sharing_seconds(&mut session, 1_000, true);
    let accrual = accumulate_sharing_seconds(&mut session, 900, true);
    assert_eq!(accrual, Accrual { total: 0, changed: false });
    assert_eq!(session.last_tick, Some(900));
}

#[test]
fn total_saturates() {
    let mut session = SharingSession::new();
    session.accrued_seconds = u64::MAX - 5;
    session.last_tick = Some(0);
    let accrual = accumulate_sharing_seconds(&mut session, 60, true);
    assert_eq!(accrual, Accrual { total: u64::MAX, changed: true });
}

#[test]
fn total_never_decreases_over_polls() {
    let mut session = SharingSession::new();
    let mut previous = 0;
    let mut now = 1_000;
    for step in 0..200u64 {
        now += (step * 37) % 300;
        let total = accumulate_sharing_seconds(&mut session, now, step % 3 != 0).total;
        assert!(total >= previous);
        assert!(total - previous <= 120);
        previous = total;
    }
}

#[test]
fn session_activity_rule() {
    assert!(session_active(true, true, false, true, false));
    assert!(session_active(true, false, true, true, false));
    assert!(!session_active(true, false, false, true, false));
    assert!(!session_active(false, true, true, true, false));
    assert!(!session_active(true, true, true, false, false));
    assert!(!session_active(true, true, true, true, true));
}

#[test]
fn idleness_threshold() {
    assert!(heartbeat_idle(None, 1_000));
    assert!(!heartbeat_idle(Some(1_000), 1_180));
    assert!(heartbeat_idle(Some(1_000), 1_181));
    assert!(!heartbeat_idle(Some(2_000), 1_000));
}

#[test]
fn reset_and_clear() {
    let mut session = SharingSession::new();
    session.rotate("abc".to_string());
    session.accrued_seconds = 77;
    session.last_tick = Some(5);
    session.reset();
    assert_eq!(session.accrued_seconds, 0);
    assert_eq!(session.last_tick, None);
    assert_eq!(session.fingerprint, Some("abc".to_string()));
    session.accrued_seconds = 9;
    session.clear();
    assert_eq!(session.accrued_seconds, 0);
    assert_eq!(session.fingerprint, None);
}

#[test]
fn rotation_resets_accrued_seconds() {
    let mut session = SharingSession::new();
    session.accrued_seconds = 300;
    session.last_tick = Some(12);
    session.fingerprint = Some("abc".to_string());
    session.rotate("def".to_string());
    assert_eq!(session.accrued_seconds, 0);
    assert_eq!(session.last_tick, None);
    assert_eq!(session.fingerprint, Some("def".to_string()));
}

#[test]
fn heartbeat_rotates_once_and_succeeds() {
    let mut session = SharingSession::new();
    session.fingerprint = Some("abc".to_string());
    session.accrued_seconds = 300;
    let mut run = HeartbeatRun::new();
    let (fingerprint, seconds) = expect_send(run.begin(true, &key(), &session));
    assert_eq!((fingerprint.as_str(), seconds), ("abc", 300));
    let step = run.advance(HeartbeatReply::Heartbeat(HeartbeatOutcome::InvalidSessionId), &mut session);
    assert!(matches!(step, HeartbeatStep::CreateFingerprint));
    let (fingerprint, seconds) =
        expect_send(run.advance(HeartbeatReply::Fingerprint("def".to_string()), &mut session));
    assert_eq!((fingerprint.as_str(), seconds), ("def", 0));
    assert_eq!(session.accrued_seconds, 0);
    assert_eq!(session.fingerprint, Some("def".to_string()));
    let step = run.advance(HeartbeatReply::Heartbeat(HeartbeatOutcome::ActiveUsers(5)), &mut session);
    assert!(matches!(step, HeartbeatStep::Done(5)));
    assert_eq!(run.calls, 2);
    assert_eq!(run.phase, Phase::Finished);
}

#[test]
fn second_rejection_is_a_hard_error() {
    let mut session = SharingSession::new();
    session.fingerprint = Some("abc".to_string());
    let mut run = HeartbeatRun::new();
    run.begin(true, &key(), &session);
    run.advance(HeartbeatReply::Heartbeat(HeartbeatOutcome::InvalidSessionId), &mut session);
    run.advance(HeartbeatReply::Fingerprint("def".to_string()), &mut session);
    let step = run.advance(HeartbeatReply::Heartbeat(HeartbeatOutcome::InvalidSessionId), &mut session);
    match step {
        HeartbeatStep::Failed(message) => {
            assert_eq!(message, "Flavortown rejected fingerprint after rotation")
        }
        _ => panic!("expected a failure"),
    }
    assert_eq!(run.calls, 2);
    assert_eq!(run.phase, Phase::Finished);
    let after = run.advance(HeartbeatReply::Heartbeat(HeartbeatOutcome::InvalidSessionId), &mut session);
    assert!(matches!(after, HeartbeatStep::Failed(_)));
    assert_eq!(run.calls, 2);
}

#[test]
fn at_most_two_heartbeats_whatever_the_replies() {
    for pattern in 0..81u32 {
        let mut session = SharingSession::new();
        let mut run = HeartbeatRun::new();
        let mut sent = 0;
        let mut step = run.begin(true, &key(), &session);
        let mut digits = pattern;
        for _ in 0..8 {
            if matches!(step, HeartbeatStep::SendHeartbeat { .. }) {
                sent += 1;
            }
            let reply = match digits % 3 {
                0 => HeartbeatReply::Fingerprint("fp".to_string()),
                1 => HeartbeatReply::Heartbeat(HeartbeatOutcome::InvalidSessionId),
                _ => HeartbeatReply::Heartbeat(HeartbeatOutcome::ActiveUsers(1)),
            };
            digits /= 3;
            step = run.advance(reply, &mut session);
        }
        assert!(sent <= 2);
        assert!(run.calls <= 2);
    }
}

#[test]
fn fingerprint_is_acquired_lazily() {
    let mut session = SharingSession::new();
    session.accrued_seconds = 40;
    let mut run = HeartbeatRun::new();
    let step = run.begin(true, &key(), &session);
    assert!(matches!(step, HeartbeatStep::CreateFingerprint));
    assert_eq!(run.phase, Phase::Acquiring);
    let (fingerprint, seconds) =
        expect_send(run.advance(HeartbeatReply::Fingerprint("new".to_string()), &mut session));
    assert_eq!((fingerprint.as_str(), seconds), ("new", 40));
    assert_eq!(session.accrued_seconds, 0);
    assert_eq!(run.calls, 1);
    let step = run.advance(HeartbeatReply::Heartbeat(HeartbeatOutcome::ActiveUsers(9)), &mut session);
    assert!(matches!(step, HeartbeatStep::Done(9)));
}

#[test]
fn no_heartbeat_without_a_usable_login() {
    let session = SharingSession::new();
    let mut run = HeartbeatRun::new();
    assert!(matches!(run.begin(false, &key(), &session), HeartbeatStep::Done(0)));
    assert_eq!(run.phase, Phase::Finished);
    let mut run = HeartbeatRun::new();
    assert!(matches!(run.begin(true, &None, &session), HeartbeatStep::Done(0)));
    let mut run = HeartbeatRun::new();
    assert!(matches!(run.begin(true, &Some("   ".to_string()), &session), HeartbeatStep::Done(0)));
    assert_eq!(run.calls, 0);
}

#[test]
fn failed_call_ends_the_run() {
    let mut session = SharingSession::new();
    session.fingerprint = Some("abc".to_string());
    session.accrued_seconds = 12;
    let mut run = HeartbeatRun::new();
    run.begin(true, &key(), &session);
    let step = run.advance(HeartbeatReply::Failure("Heartbeat failed: 500".to_string()), &mut session);
    match step {
        HeartbeatStep::Failed(message) => assert_eq!(message, "Heartbeat failed: 500"),
        _ => panic!("expected a failure"),
    }
    assert_eq!(session.accrued_seconds, 12);
    assert_eq!(run.phase, Phase::Finished);
}

#[test]
fn reply_out_of_order_ends_the_run() {
    let mut session = SharingSession::new();
    session.fingerprint = Some("abc".to_string());
    let mut run = HeartbeatRun::new();
    run.begin(true, &key(), &session);
    let step = run.advance(HeartbeatReply::Fingerprint("zzz".to_string()), &mut session);
    match step {
        HeartbeatStep::Failed(message) => assert_eq!(message, "Heartbeat reply out of order"),
        _ => panic!("expected a failure"),
    }
    assert_eq!(session.fingerprint, Some("abc".to_string()));
}

#[test]
fn only_a_keyed_service_login_reports() {
    assert!(can_report(true, &key()));
    assert!(!can_report(false, &key()));
    assert!(!can_report(true, &None));
    assert!(!can_report(true, &Some(" \t".to_string())));
}
