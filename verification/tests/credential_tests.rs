use hyper_lifecycle::actor_errors::{
    abi_error_class, host_call_result, protocol_error_to_code, AbiErrorClass, ActrErrorKind,
    HostCallEnd, HostCallResult,
};
use hyper_lifecycle::credential_manager::{
    check_renewal, credential_only_rebind, hard_rebind_commit, is_expired, legacy_renew_failure,
    possession_proof, publish_session, renewal_path, resign_failure, resign_inputs,
    soft_renew_failure, soft_renew_outcome, Backoff, FreshCredential, IssuedCredential,
    IssuerError, IssuerReply, LegacyRenewStep, RebindOutcome, RenewFailure, RenewalPath,
    SessionSnapshot, SoftRenewOutcome, Timestamp,
};

fn ts(seconds: i64) -> Timestamp {
    Timestamp { seconds, nanos: 0 }
}

fn snapshot(actor: &str, generation: u64) -> SessionSnapshot<String, String> {
    SessionSnapshot {
        actor_id: actor.to_string(),
        credential: "old-cred".to_string(),
        credential_expires_at: ts(100),
        turn_credential: "old-turn".to_string(),
        renewal_token: vec![1, 2, 3],
        renewal_token_expires_at: ts(200),
        generation,
    }
}

fn issued(actor: &str) -> IssuedCredential<String, String> {
    IssuedCredential {
        actor_id: actor.to_string(),
        credential: "new-cred".to_string(),
        turn_credential: "new-turn".to_string(),
        credential_expires_at: Some(ts(1_000)),
        renewal_token: Some(vec![9, 9]),
        renewal_token_expires_at: Some(ts(2_000)),
    }
}

fn fresh() -> FreshCredential<String, String> {
    FreshCredential {
        credential: "new-cred".to_string(),
        credential_expires_at: ts(1_000),
        turn_credential: "new-turn".to_string(),
        renewal_token: vec![9, 9],
        renewal_token_expires_at: ts(2_000),
    }
}

#[test]
fn expiry_is_inclusive_of_the_current_second() {
    assert!(is_expired(10, 10));
    assert!(is_expired(9, 10));
    assert!(!is_expired(11, 10));
}

#[test]
fn renewal_path_needs_a_usable_token() {
    assert_eq!(renewal_path(&vec![1], 11, 10), RenewalPath::SoftRenew);
    assert_eq!(renewal_path(&vec![1], 10, 10), RenewalPath::HardRebind);
    assert_eq!(renewal_path(&Vec::new(), 100, 10), RenewalPath::HardRebind);
}

#[test]
fn backoff_ladder_values() {
    let mut b = Backoff::new();
    let got: Vec<u64> = (0..8).map(|_| b.next()).collect();
    assert_eq!(got, vec![5_000, 8_000, 20_000, 30_000, 60_000, 45_000, 60_000, 45_000]);
}

#[test]
fn soft_renew_failures_are_answered() {
    assert_eq!(
        soft_renew_failure::<String, String>(RenewFailure::RealmUnavailable),
        SoftRenewOutcome::Denied
    );
    assert_eq!(
        soft_renew_failure::<String, String>(RenewFailure::TokenRejected),
        SoftRenewOutcome::FallThroughToHardRebind
    );
    assert_eq!(
        soft_renew_failure::<String, String>(RenewFailure::RateLimited { retry_after: Some(3) }),
        SoftRenewOutcome::Deferred("renewal rate limited".to_string())
    );
    assert_eq!(
        soft_renew_failure::<String, String>(RenewFailure::Retryable("socket closed".to_string())),
        SoftRenewOutcome::Deferred("retryable renew error: socket closed".to_string())
    );
    assert_eq!(
        soft_renew_failure::<String, String>(RenewFailure::Other("boom".to_string())),
        SoftRenewOutcome::Deferred("boom".to_string())
    );
}

#[test]
fn legacy_renew_failures_are_answered() {
    assert_eq!(legacy_renew_failure(RenewFailure::TokenRejected), LegacyRenewStep::HardRebind);
    assert_eq!(
        legacy_renew_failure(RenewFailure::RealmUnavailable),
        LegacyRenewStep::Abandon {
            mark_realm_unavailable: true,
            pause: None,
            reason: "realm unavailable during renewal".to_string(),
        }
    );
    assert_eq!(
        legacy_renew_failure(RenewFailure::RateLimited { retry_after: Some(7) }),
        LegacyRenewStep::Abandon {
            mark_realm_unavailable: false,
            pause: Some(7),
            reason: "renewal rate limited".to_string(),
        }
    );
    assert_eq!(
        legacy_renew_failure(RenewFailure::Retryable("busy".to_string())),
        LegacyRenewStep::Abandon {
            mark_realm_unavailable: false,
            pause: Some(5_000_000_000),
            reason: "retryable renew error: busy".to_string(),
        }
    );
}

#[test]
fn renewal_reply_is_checked_in_order() {
    let me = "realm/1/node".to_string();
    let ok = |r: IssuerReply<String, String>, c: Result<String, String>| check_renewal(&me, r, c);
    assert_eq!(ok(IssuerReply::Success(issued("realm/1/node")), Ok(me.clone())), Ok(fresh()));
    assert_eq!(
        ok(IssuerReply::Error(IssuerError { code: 500, message: "boom".to_string() }), Ok(me.clone())),
        Err("renew response contained error 500: boom".to_string())
    );
    assert_eq!(
        ok(IssuerReply::Missing, Ok(me.clone())),
        Err("renew response missing result".to_string())
    );
    assert_eq!(
        ok(IssuerReply::Success(issued("realm/2/other")), Ok(me.clone())),
        Err("renew response changed ActrId".to_string())
    );
    assert_eq!(
        ok(IssuerReply::Success(issued("realm/1/node")), Err("bad varint".to_string())),
        Err("renew credential claims decode failed: bad varint".to_string())
    );
    assert_eq!(
        ok(IssuerReply::Success(issued("realm/1/node")), Ok("someone".to_string())),
        Err("renew credential claims actor_id mismatch".to_string())
    );
    let mut partial = issued("realm/1/node");
    partial.renewal_token = None;
    assert_eq!(
        ok(IssuerReply::Success(partial), Ok(me.clone())),
        Err("renew response missing renewal token".to_string())
    );
    let mut partial = issued("realm/1/node");
    partial.credential_expires_at = None;
    partial.renewal_token_expires_at = None;
    assert_eq!(
        ok(IssuerReply::Success(partial), Ok(me.clone())),
        Err("renew response missing credential expiry".to_string())
    );
    let mut partial = issued("realm/1/node");
    partial.renewal_token_expires_at = None;
    assert_eq!(
        ok(IssuerReply::Success(partial), Ok(me.clone())),
        Err("renew response missing renewal token expiry".to_string())
    );
}

#[test]
fn soft_renew_outcome_combines_call_and_reply() {
    let me = "a".to_string();
    assert_eq!(
        soft_renew_outcome(&me, Ok(IssuerReply::Success(issued("a"))), Ok(me.clone())),
        SoftRenewOutcome::Renewed(fresh())
    );
    assert_eq!(
        soft_renew_outcome(&me, Ok(IssuerReply::<String, String>::Missing), Ok(me.clone())),
        SoftRenewOutcome::Deferred("renew response missing result".to_string())
    );
    assert_eq!(
        soft_renew_outcome::<String, String>(&me, Err(RenewFailure::TokenRejected), Ok(me.clone())),
        SoftRenewOutcome::FallThroughToHardRebind
    );
}

#[test]
fn legacy_hard_rebind_commits_with_the_old_identity() {
    let old = snapshot("a", 4);
    let committed = hard_rebind_commit(&old, Ok(IssuerReply::Success(issued("a")))).expect("commits");
    assert_eq!(committed.actor_id, "a");
    assert_eq!(committed.generation, 5);
    assert_eq!(committed.credential, "new-cred");
    assert_eq!(committed.renewal_token, vec![9, 9]);
    assert_eq!(
        hard_rebind_commit(&old, Err("connection refused".to_string())),
        Err("hard rebind reissue failed before commit: connection refused".to_string())
    );
    assert_eq!(
        hard_rebind_commit(
            &old,
            Ok(IssuerReply::Error(IssuerError { code: 403, message: "denied".to_string() }))
        ),
        Err("hard rebind reissue rejected before commit 403: denied".to_string())
    );
    assert_eq!(
        hard_rebind_commit(&old, Ok(IssuerReply::Success(issued("b")))),
        Err("credential reissue changed ActrId (b != a)".to_string())
    );
    let mut partial = issued("a");
    partial.renewal_token = None;
    assert_eq!(
        hard_rebind_commit(&old, Ok(IssuerReply::Success(partial))),
        Err("hard rebind response missing renewal token".to_string())
    );
    let top = snapshot("a", u64::MAX);
    let saturated = hard_rebind_commit(&top, Ok(IssuerReply::Success(issued("a")))).expect("commits");
    assert_eq!(saturated.generation, u64::MAX);
}

#[test]
fn credential_only_rebind_denies_on_403() {
    let old = snapshot("a", 0);
    assert_eq!(
        credential_only_rebind(
            &old,
            Ok(IssuerReply::<String, String>::Error(IssuerError { code: 403, message: "no".to_string() }))
        ),
        RebindOutcome::Denied
    );
    assert_eq!(
        credential_only_rebind(
            &old,
            Ok(IssuerReply::<String, String>::Error(IssuerError { code: 401, message: "no".to_string() }))
        ),
        RebindOutcome::Deferred("hard rebind reissue rejected 401: no".to_string())
    );
    assert_eq!(
        credential_only_rebind::<String, String>(&old, Err("timeout".to_string())),
        RebindOutcome::Deferred("hard rebind reissue failed: timeout".to_string())
    );
    assert_eq!(
        credential_only_rebind(&old, Ok(IssuerReply::Success(issued("z")))),
        RebindOutcome::Deferred("credential reissue returned a different ActrId (z != a)".to_string())
    );
    match credential_only_rebind(&old, Ok(IssuerReply::Success(issued("a")))) {
        RebindOutcome::Commit(s) => {
            assert_eq!(s.generation, 1);
            assert_eq!(s.actor_id, "a");
            let p = publish_session(s, 0);
            assert_eq!(p.revision, 0);
            assert_eq!(p.credential_expires_at, Some(ts(1_000)));
            assert_eq!(p.turn_credential, Some("new-turn".to_string()));
        }
        other => panic!("expected a commit, got {other:?}"),
    }
}

#[test]
fn both_rebinds_commit_the_same_reply() {
    let old = snapshot("a", 9);
    let legacy = hard_rebind_commit(&old, Ok(IssuerReply::Success(issued("a")))).expect("commits");
    match credential_only_rebind(&old, Ok(IssuerReply::Success(issued("a")))) {
        RebindOutcome::Commit(s) => assert_eq!(s, legacy),
        other => panic!("expected a commit, got {other:?}"),
    }
}

#[test]
fn possession_proof_and_resign_inputs() {
    assert_eq!(possession_proof(Vec::new()), None);
    assert_eq!(possession_proof(vec![4]), Some(vec![4]));
    assert_eq!(
        resign_inputs(Some("t".to_string()), Some(vec![1])),
        Ok(("t".to_string(), vec![1]))
    );
    assert_eq!(
        resign_inputs(Some(String::new()), Some(vec![1])),
        Err("hard rebind manufacturer re-sign failed: package target is missing".to_string())
    );
    assert_eq!(
        resign_inputs(Some("t".to_string()), None),
        Err("hard rebind manufacturer re-sign failed: package manifest is missing".to_string())
    );
    assert_eq!(
        resign_failure("hsm offline"),
        "hard rebind manufacturer re-sign failed: hsm offline".to_string()
    );
}

#[test]
fn actor_error_codes() {
    assert_eq!(protocol_error_to_code(ActrErrorKind::Unavailable), 503);
    assert_eq!(protocol_error_to_code(ActrErrorKind::TimedOut), 504);
    assert_eq!(protocol_error_to_code(ActrErrorKind::UnknownRoute), 404);
    assert_eq!(protocol_error_to_code(ActrErrorKind::DependencyNotFound), 400);
    assert_eq!(protocol_error_to_code(ActrErrorKind::NotImplemented), 501);
    assert_eq!(protocol_error_to_code(ActrErrorKind::Internal), 500);
    assert_eq!(abi_error_class(ActrErrorKind::DecodeFailure), AbiErrorClass::Protocol);
    assert_eq!(abi_error_class(ActrErrorKind::TimedOut), AbiErrorClass::Generic);
    assert_eq!(
        host_call_result(HostCallEnd::UndecodableDestination),
        HostCallResult::Error(AbiErrorClass::Protocol)
    );
    assert_eq!(host_call_result(HostCallEnd::Answered(vec![1, 2])), HostCallResult::Bytes(vec![1, 2]));
    assert_eq!(host_call_result(HostCallEnd::Delivered), HostCallResult::Done);
    assert_eq!(
        host_call_result(HostCallEnd::Failed(ActrErrorKind::InvalidArgument)),
        HostCallResult::Error(AbiErrorClass::Protocol)
    );
}

#[test]
fn credential_update_keeps_turn_when_none_is_given() {
    let mut st = hyper_lifecycle::credential_manager::CredentialState::new(
        "c1".to_string(),
        Some(ts(10)),
        Some("turn1".to_string()),
    );
    st.update("c2".to_string(), Some(ts(20)), None);
    assert_eq!(st.credential, "c2");
    assert_eq!(st.expires_at, Some(ts(20)));
    assert_eq!(st.turn_credential, Some("turn1".to_string()));
    st.update("c3".to_string(), None, Some("turn2".to_string()));
    assert_eq!(st.turn_credential, Some("turn2".to_string()));
    assert_eq!(st.expires_at, None);
}

#[test]
fn only_one_renewal_runs_at_a_time() {
    let mut f = hyper_lifecycle::credential_manager::RenewalFlight::new();
    assert!(f.try_begin());
    assert!(!f.try_begin());
    f.finish();
    assert!(f.try_begin());
}
