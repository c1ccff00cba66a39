use matrix_mozilla_bot::sync::{
    classify_failure, Phase, ServerErrorKind, SyncAction, SyncDriver, SyncEvent, SyncFailure,
};

#[test]
fn invalid_token_while_streaming_reauthenticates() {
    let mut d = SyncDriver::restored(Some("s1".to_string()));
    assert_eq!(
        d.next_action(),
        SyncAction::CatchUp { token: Some("s1".to_string()), delay_ms: 0 }
    );
    assert_eq!(
        d.step(SyncEvent::CatchUpSucceeded("s2".to_string())),
        SyncAction::PersistAndStream("s2".to_string())
    );
    assert_eq!(d.phase, Phase::Streaming);
    assert_eq!(
        d.step(SyncEvent::StreamFailed(SyncFailure::InvalidToken)),
        SyncAction::WipeStore
    );
    assert_eq!(d, SyncDriver { phase: Phase::Reauthenticating, token: None });
    assert_eq!(d.step(SyncEvent::StoreWiped), SyncAction::Login);
    assert_eq!(
        d.step(SyncEvent::LoginSucceeded),
        SyncAction::CatchUp { token: None, delay_ms: 0 }
    );
    assert_eq!(
        d.step(SyncEvent::CatchUpSucceeded("s3".to_string())),
        SyncAction::PersistAndStream("s3".to_string())
    );
    assert_eq!(d.token, Some("s3".to_string()));
}

#[test]
fn rate_limit_waits_server_delay_or_default() {
    let mut d = SyncDriver::restored(None);
    assert_eq!(
        d.step(SyncEvent::CatchUpFailed(SyncFailure::RateLimited(Some(1200)))),
        SyncAction::CatchUp { token: None, delay_ms: 1200 }
    );
    assert_eq!(
        d.step(SyncEvent::CatchUpFailed(SyncFailure::RateLimited(None))),
        SyncAction::CatchUp { token: None, delay_ms: 5000 }
    );
    assert_eq!(
        d.step(SyncEvent::CatchUpFailed(SyncFailure::Transient)),
        SyncAction::CatchUp { token: None, delay_ms: 0 }
    );
    assert_eq!(d.phase, Phase::CatchingUp);
}

#[test]
fn fresh_start_logs_in_and_login_failure_stops() {
    let mut d = SyncDriver::fresh();
    assert_eq!(d.next_action(), SyncAction::Login);
    assert_eq!(d.step(SyncEvent::LoginFailed(SyncFailure::Transient)), SyncAction::Login);
    assert_eq!(d.phase, Phase::Authenticating);
    assert_eq!(d.step(SyncEvent::LoginFailed(SyncFailure::Forbidden)), SyncAction::Stop);
    assert_eq!(d.phase, Phase::Failed);
    assert_eq!(d.step(SyncEvent::LoginSucceeded), SyncAction::Stop);
}

#[test]
fn forbidden_logs_in_again_keeping_token() {
    let mut d = SyncDriver::restored(Some("s1".to_string()));
    assert_eq!(d.step(SyncEvent::CatchUpFailed(SyncFailure::Forbidden)), SyncAction::Login);
    assert_eq!(
        d.step(SyncEvent::LoginSucceeded),
        SyncAction::CatchUp { token: Some("s1".to_string()), delay_ms: 0 }
    );
}

#[test]
fn other_errors_are_fatal() {
    let mut d = SyncDriver::restored(None);
    assert_eq!(d.step(SyncEvent::CatchUpFailed(SyncFailure::Fatal)), SyncAction::Stop);
    assert_eq!(d.phase, Phase::Failed);
}

#[test]
fn unexpected_event_repeats_action() {
    let mut d = SyncDriver::fresh();
    assert_eq!(d.step(SyncEvent::StoreWiped), SyncAction::Login);
    assert_eq!(d, SyncDriver::fresh());
}

#[test]
fn stream_rate_limit_resumes_stream() {
    let mut d = SyncDriver::restored(None);
    d.step(SyncEvent::CatchUpSucceeded("t".to_string()));
    assert_eq!(
        d.step(SyncEvent::StreamFailed(SyncFailure::RateLimited(None))),
        SyncAction::Stream { token: Some("t".to_string()), delay_ms: 5000 }
    );
}

#[test]
fn server_errors_are_classified() {
    assert_eq!(classify_failure(ServerErrorKind::NoServerError), SyncFailure::Transient);
    assert_eq!(classify_failure(ServerErrorKind::ConnectionTimeout), SyncFailure::Transient);
    assert_eq!(
        classify_failure(ServerErrorKind::LimitExceeded(Some(7))),
        SyncFailure::RateLimited(Some(7))
    );
    assert_eq!(classify_failure(ServerErrorKind::UnknownToken), SyncFailure::InvalidToken);
    assert_eq!(classify_failure(ServerErrorKind::MissingToken), SyncFailure::InvalidToken);
    assert_eq!(classify_failure(ServerErrorKind::Forbidden), SyncFailure::Forbidden);
    assert_eq!(classify_failure(ServerErrorKind::Other), SyncFailure::Fatal);
}
