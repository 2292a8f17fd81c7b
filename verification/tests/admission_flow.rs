//! Scenario tests for the admission state machine: the registry, the
//! enforcement timer and the verification callback.

use wld_captcha::callback::{
    accept_verification, begin_verification, handle_provider_outcome, map_rejection,
    ChallengeBinding, ProviderOutcome, VerifyError,
};
use wld_captcha::enforcement::{EnforcementTimer, TimerOutcome};
use wld_captcha::registry::{JoinRequest, Registry, RequestKey};

fn key(group: i64, member: u64) -> RequestKey {
    RequestKey { group, member }
}

#[test]
fn verifies_in_time_is_never_enforced() {
    // Grace duration of 2 time units; the member verifies at t = 1; the
    // timer fires at t = 2, finds the entry verified, and takes the no-op
    // branch.
    let mut reg = Registry::new();
    let k = key(100, 5);
    reg.insert(k, JoinRequest::new(7));
    let mut timer = EnforcementTimer::arm(k, 2);
    assert_eq!(timer.grace_secs(), 2);

    let accepted = accept_verification(&mut reg, k);
    assert_eq!(accepted, Ok(7));

    let outcome = timer.fire(&mut reg);
    assert_eq!(outcome, TimerOutcome::AlreadyVerified);
    assert!(!reg.contains(k));
}

#[test]
fn never_verifies_is_enforced_exactly_once() {
    // Grace duration of 2 time units; the member never verifies; at t = 2
    // the member is kicked and the challenge message is deleted exactly
    // once.
    let mut reg = Registry::new();
    let k = key(100, 6);
    reg.insert(k, JoinRequest::new(9));
    let mut timer = EnforcementTimer::arm(k, 2);

    let outcome = timer.fire(&mut reg);
    assert_eq!(
        outcome,
        TimerOutcome::Enforce {
            msg_to_delete: Some(9)
        }
    );

    // The entry is gone: nothing can enforce, delete or verify again.
    assert!(!reg.contains(k));
    let mut second = EnforcementTimer::arm(k, 2);
    assert_eq!(second.fire(&mut reg), TimerOutcome::NoEntry);
    assert_eq!(
        begin_verification(&reg, k),
        Err(VerifyError::NotFound)
    );
}

#[test]
fn repeated_join_keeps_a_single_entry() {
    let mut reg = Registry::new();
    let k = key(42, 1);
    reg.insert(k, JoinRequest::new(1));
    reg.insert(k, JoinRequest::new(2));

    // One removal takes the single (latest) entry; a second finds nothing.
    assert_eq!(reg.remove_if_present(k), Some(JoinRequest::new(2)));
    assert_eq!(reg.remove_if_present(k), None);
}

#[test]
fn second_callback_returns_conflict() {
    let mut reg = Registry::new();
    let k = key(100, 5);
    reg.insert(k, JoinRequest::new(7));

    assert_eq!(accept_verification(&mut reg, k), Ok(7));
    // The challenge reference is cleared: the second call fails closed.
    assert_eq!(accept_verification(&mut reg, k), Err(VerifyError::Conflict));
    assert_eq!(
        begin_verification(&reg, k),
        Err(VerifyError::Conflict)
    );
    // The entry is still there, verified, until its timer removes it.
    assert_eq!(
        reg.get(k),
        Some(JoinRequest {
            msg_id: None,
            is_verified: true
        })
    );
}

#[test]
fn lookup_before_any_join_is_not_found() {
    // GET /verify/100/5 before any join for that pair: 404.
    let reg = Registry::new();
    let r = begin_verification(&reg, key(100, 5));
    assert_eq!(r, Err(VerifyError::NotFound));
    assert_eq!(VerifyError::NotFound.status_code(), 404);
}

#[test]
fn binding_is_read_from_the_stored_request() {
    let mut reg = Registry::new();
    reg.insert(key(100, 5), JoinRequest::new(7));
    reg.insert(key(100, 6), JoinRequest::new(8));
    reg.insert(key(200, 5), JoinRequest::new(9));

    let b_100_5 = begin_verification(&reg, key(100, 5)).unwrap();
    let b_100_6 = begin_verification(&reg, key(100, 6)).unwrap();
    let b_200_5 = begin_verification(&reg, key(200, 5)).unwrap();

    assert_eq!(
        b_100_5,
        ChallengeBinding {
            signal_msg: 7,
            action_group: 100
        }
    );
    // A proof minted for (100, 5) carries signal "7" and action "100"; the
    // binding built for any other pending request differs, so the provider
    // rejects the replay.
    assert_ne!(b_100_5, b_100_6);
    assert_ne!(b_100_5, b_200_5);
    assert_eq!(b_100_5.signal_string(), "7");
    assert_eq!(b_100_5.action_string(), "100");
    assert_eq!(b_100_6.signal_string(), "8");
    assert_eq!(b_200_5.action_string(), "200");
}

#[test]
fn rejection_reasons_map_to_statuses() {
    let already = map_rejection(&Some("max_verifications_reached".to_string()));
    assert_eq!(already, VerifyError::RateLimited);
    assert_eq!(already.status_code(), 429);

    let other = map_rejection(&Some("invalid_proof".to_string()));
    assert_eq!(other, VerifyError::BadRequest);
    assert_eq!(other.status_code(), 400);

    let missing = map_rejection(&None);
    assert_eq!(missing, VerifyError::BadRequest);
}

#[test]
fn provider_outcomes_drive_the_transition() {
    let mut reg = Registry::new();
    let k = key(1, 2);
    reg.insert(k, JoinRequest::new(5));

    // A transport failure leaves the entry untouched.
    let r = handle_provider_outcome(&mut reg, k, &ProviderOutcome::TransportFailure);
    assert_eq!(r, Err(VerifyError::UpstreamFailure));
    assert_eq!(VerifyError::UpstreamFailure.status_code(), 500);
    assert_eq!(reg.get(k), Some(JoinRequest::new(5)));

    // A rejection leaves the entry untouched as well.
    let r = handle_provider_outcome(
        &mut reg,
        k,
        &ProviderOutcome::Rejected {
            reason: Some("max_verifications_reached".to_string()),
        },
    );
    assert_eq!(r, Err(VerifyError::RateLimited));
    assert_eq!(reg.get(k), Some(JoinRequest::new(5)));

    // Acceptance hands out the challenge message and marks the entry.
    let r = handle_provider_outcome(&mut reg, k, &ProviderOutcome::Accepted);
    assert_eq!(r, Ok(5));
    assert_eq!(
        reg.get(k),
        Some(JoinRequest {
            msg_id: None,
            is_verified: true
        })
    );
}

#[test]
fn error_statuses_cover_the_taxonomy() {
    assert_eq!(VerifyError::NotFound.status_code(), 404);
    assert_eq!(VerifyError::Conflict.status_code(), 409);
    assert_eq!(VerifyError::RateLimited.status_code(), 429);
    assert_eq!(VerifyError::BadRequest.status_code(), 400);
    assert_eq!(VerifyError::UpstreamFailure.status_code(), 500);
    assert_eq!(VerifyError::PermissionFailure.status_code(), 500);
    assert_eq!(VerifyError::MessagingFailure.status_code(), 500);
}
