use std::collections::VecDeque;

use lan_discovery::scrobbling::{
    keep_back, retry_step, ActionType, AuthEvent, AuthStep, Backlog, Credentials, Dispatch,
    DispatchAll, RetryStep, ScrobblingError, ScrobblingManager, ScrobblingService,
    NOW_PLAYING_CACHE_LIMIT, SCROBBLE_CACHE_LIMIT,
};

fn credentials(service: ScrobblingService, key: Option<&str>, secret: Option<&str>) -> Credentials {
    Credentials {
        service,
        username: "user".to_string(),
        password: "password".to_string(),
        api_key: key.map(|k| k.to_string()),
        api_secret: secret.map(|s| s.to_string()),
    }
}

fn sign_in(manager: &mut ScrobblingManager<u32>, service: ScrobblingService, key: &str) -> Backlog<u32> {
    let credentials = credentials(service, Some("k"), Some("s"));
    match manager.authenticate(&credentials, AuthEvent::Succeeded(key.to_string())) {
        AuthStep::Done(backlog) => backlog,
        other => panic!("expected the backlog, got {:?}", other),
    }
}

#[test]
fn cache_limits() {
    assert_eq!(NOW_PLAYING_CACHE_LIMIT, 1);
    assert_eq!(SCROBBLE_CACHE_LIMIT, 48);
}

#[test]
fn error_names_service_and_action() {
    let error = ScrobblingError {
        service: ScrobblingService::LibreFm,
        action: ActionType::Scrobbling,
        error: "timeout".to_string(),
    };
    assert_eq!(error.service, ScrobblingService::LibreFm);
    assert_eq!(error.action, ActionType::Scrobbling);
    assert_ne!(error.action, ActionType::UpdateNowPlaying);
    assert_ne!(error.action, ActionType::Authenticate);
    assert_eq!(error.error, "timeout");
}

#[test]
fn queue_drops_its_first_item_over_the_limit() {
    let mut queue: VecDeque<u32> = VecDeque::new();
    keep_back(&mut queue, 1, 2);
    keep_back(&mut queue, 2, 2);
    assert_eq!(queue, vec![1, 2]);
    keep_back(&mut queue, 3, 2);
    assert_eq!(queue, vec![2, 3]);
    let mut none: VecDeque<u32> = VecDeque::new();
    keep_back(&mut none, 1, 0);
    assert!(none.is_empty());
}

#[test]
fn retries_are_counted_with_the_failure() {
    assert_eq!(retry_step(0, 3), RetryStep::Retry);
    assert_eq!(retry_step(1, 3), RetryStep::Retry);
    assert_eq!(retry_step(2, 3), RetryStep::GiveUp);
    assert_eq!(retry_step(0, 1), RetryStep::GiveUp);
    assert_eq!(retry_step(0, 0), RetryStep::GiveUp);
    assert_eq!(retry_step(u32::MAX, u32::MAX), RetryStep::GiveUp);
    assert_eq!(retry_step(u32::MAX - 2, u32::MAX), RetryStep::Retry);
}

#[test]
fn last_fm_takes_key_and_secret() {
    let mut manager: ScrobblingManager<u32> = ScrobblingManager::new(3);
    let step =
        manager.authenticate(&credentials(ScrobblingService::LastFm, None, None), AuthEvent::Begin);
    assert!(matches!(step, AuthStep::Refused(m) if m == "Last.fm requires API key"));
    assert!(manager.is_authenticating());
    let step = manager
        .authenticate(&credentials(ScrobblingService::LastFm, Some("k"), None), AuthEvent::Begin);
    assert!(matches!(step, AuthStep::Refused(m) if m == "Last.fm requires API secret"));
    let step = manager.authenticate(
        &credentials(ScrobblingService::LastFm, Some("k"), Some("s")),
        AuthEvent::Begin,
    );
    assert!(matches!(step, AuthStep::Attempt));
    let step =
        manager.authenticate(&credentials(ScrobblingService::LibreFm, None, None), AuthEvent::Begin);
    assert!(matches!(step, AuthStep::Attempt));
    let step = manager
        .authenticate(&credentials(ScrobblingService::ListenBrainz, None, None), AuthEvent::Begin);
    assert!(matches!(step, AuthStep::Attempt));
}

#[test]
fn tracks_are_kept_back_during_a_sign_in() {
    let mut manager: ScrobblingManager<u32> = ScrobblingManager::new(3);
    let libre = credentials(ScrobblingService::LibreFm, None, None);
    assert!(matches!(manager.authenticate(&libre, AuthEvent::Begin), AuthStep::Attempt));
    assert!(matches!(manager.update_now_playing(ScrobblingService::LibreFm, 1), Dispatch::Cached));
    assert!(matches!(manager.update_now_playing_all(2), DispatchAll::Cached));
    for track in 0..50u32 {
        assert!(matches!(manager.scrobble(ScrobblingService::LibreFm, track), Dispatch::Cached));
    }
    assert!(matches!(manager.scrobble_all(50), DispatchAll::Cached));
    let Backlog { now_playing, scrobbles } =
        sign_in(&mut manager, ScrobblingService::LibreFm, "session");
    assert_eq!(now_playing, vec![2]);
    assert_eq!(scrobbles, (3..=50u32).collect::<Vec<u32>>());
    assert_eq!(scrobbles.len(), 48);
    assert!(!manager.is_authenticating());
    assert!(manager.has_session(ScrobblingService::LibreFm));
    let Backlog { now_playing, scrobbles } =
        sign_in(&mut manager, ScrobblingService::LibreFm, "session");
    assert!(now_playing.is_empty());
    assert!(scrobbles.is_empty());
}

#[test]
fn tracks_go_to_services_with_a_session() {
    let mut manager: ScrobblingManager<u32> = ScrobblingManager::new(3);
    assert!(matches!(manager.scrobble(ScrobblingService::LastFm, 7), Dispatch::Skipped(7)));
    assert!(matches!(manager.scrobble_all(7), DispatchAll::Send(s, 7) if s.is_empty()));
    sign_in(&mut manager, ScrobblingService::ListenBrainz, "lb");
    sign_in(&mut manager, ScrobblingService::LastFm, "lf");
    assert!(matches!(manager.scrobble(ScrobblingService::LastFm, 7), Dispatch::Send(7)));
    assert!(matches!(
        manager.update_now_playing(ScrobblingService::LibreFm, 8),
        Dispatch::Skipped(8)
    ));
    assert!(matches!(
        manager.update_now_playing(ScrobblingService::ListenBrainz, 8),
        Dispatch::Send(8)
    ));
    let expected = vec![ScrobblingService::LastFm, ScrobblingService::ListenBrainz];
    assert!(matches!(manager.update_now_playing_all(9), DispatchAll::Send(s, 9) if s == expected));
    assert!(matches!(manager.scrobble_all(9), DispatchAll::Send(s, 9) if s == expected));
    assert_eq!(manager.signed_in(), expected);
}

#[test]
fn failed_sign_in_ends_when_attempts_are_used_up() {
    let mut manager: ScrobblingManager<u32> = ScrobblingManager::new(2);
    assert_eq!(manager.max_retries(), 2);
    let libre = credentials(ScrobblingService::LibreFm, None, None);
    assert!(matches!(manager.authenticate(&libre, AuthEvent::Begin), AuthStep::Attempt));
    assert!(matches!(manager.authenticate(&libre, AuthEvent::Failed(0)), AuthStep::Retry));
    assert!(manager.is_authenticating());
    assert!(matches!(manager.authenticate(&libre, AuthEvent::Failed(1)), AuthStep::GiveUp));
    assert!(!manager.is_authenticating());
    assert!(!manager.has_session(ScrobblingService::LibreFm));
}

#[test]
fn session_is_restored_only_for_a_client() {
    let mut manager: ScrobblingManager<u32> = ScrobblingManager::new(3);
    assert_eq!(
        manager.restore_session(ScrobblingService::LastFm, "k".to_string()),
        Err("Last.fm client not initialized".to_string())
    );
    assert_eq!(
        manager.restore_session(ScrobblingService::LibreFm, "k".to_string()),
        Err("Libre.fm client not initialized".to_string())
    );
    assert_eq!(
        manager.restore_session(ScrobblingService::ListenBrainz, "k".to_string()),
        Err("ListenBrainz client not initialized".to_string())
    );
    sign_in(&mut manager, ScrobblingService::LibreFm, "old");
    assert_eq!(manager.restore_session(ScrobblingService::LibreFm, "new".to_string()), Ok(()));
    assert!(manager.has_session(ScrobblingService::LibreFm));
    assert!(!manager.has_session(ScrobblingService::LastFm));
}
