use spotifav::auth::{AuthFlow, LoginAction, LoginEvent};
use spotifav::config::AuthConfig;
use spotifav::fault::Fault;
use spotifav::session::{
    get_client, start, Session, SessionAction, SessionEvent, SessionPhase, SessionStep,
};
use spotifav::token::{RemoteFailure, Token};

fn config() -> AuthConfig {
    AuthConfig {
        client_id: "my-client".to_string(),
        client_secret: Some("my-secret".to_string()),
        redirect_uri: "http://localhost:8888/callback".to_string(),
        scopes: vec!["user-read-currently-playing".to_string()],
        state: "st4te".to_string(),
    }
}

fn token(access: &str, refresh: &str, expires_at: u64) -> Token {
    Token::new(access.to_string(), refresh.to_string(), expires_at)
}

fn next(step: SessionStep) -> (Session, SessionAction) {
    match step {
        SessionStep::Next(session, action) => (session, action),
        SessionStep::Done(outcome) => panic!("the session ended: {:?}", outcome),
    }
}

#[test]
fn session_starts_by_reading_the_cache() {
    let (session, action) = start(&config());
    assert_eq!(action, SessionAction::ReadCache);
    assert_eq!(session.phase, SessionPhase::Loading);
    assert_eq!(session.state, "st4te");
    assert_eq!(session.store.current, None);
}

#[test]
fn session_forms_the_address_for_authorizing() {
    let (session, _) = start(&config());
    let url = session.authorize_url.expect("the address can be formed");
    assert!(url.starts_with("https://accounts.spotify.com/authorize?"));
    assert!(url.contains("client_id=my-client"));
    assert!(url.contains("response_type=code"));
    assert!(url.contains("state=st4te"));
    assert!(url.contains("scope=user-read-currently-playing"));
    assert!(url.contains("redirect_uri=http%3A%2F%2Flocalhost%3A8888%2Fcallback"));
    assert!(!url.contains("show_dialog"));
    assert!(!url.contains("my-secret"));
}

#[test]
fn absent_cache_runs_the_flow_once_and_persists_the_result() {
    let (session, _) = start(&config());
    let url = session.authorize_url.clone();
    let (session, action) = next(get_client(session, SessionEvent::CacheRead(None)));
    assert_eq!(action, SessionAction::Login(LoginAction::Present(url.unwrap())));
    assert_eq!(
        session.phase,
        SessionPhase::Authorizing(AuthFlow::AwaitingRedirect { state: "st4te".to_string() })
    );
    let pasted = "http://localhost:8888/callback?code=c0de&state=st4te\n".to_string();
    let (session, action) =
        next(get_client(session, SessionEvent::Login(LoginEvent::Pasted(pasted))));
    assert_eq!(action, SessionAction::Login(LoginAction::Exchange("c0de".to_string())));
    assert_eq!(session.phase, SessionPhase::Authorizing(AuthFlow::AwaitingToken));
    let issued = SessionEvent::Login(LoginEvent::Exchanged(Ok(token("acc", "ref", 1700000000))));
    let (session, action) = next(get_client(session, issued));
    assert_eq!(action, SessionAction::WriteCache("1700000000\n3\naccref".to_string()));
    assert_eq!(session.phase, SessionPhase::Saving(token("acc", "ref", 1700000000)));
    assert_eq!(session.store.current, Some(token("acc", "ref", 1700000000)));
    let step = get_client(session, SessionEvent::CacheWritten);
    assert_eq!(step, SessionStep::Done(Ok(token("acc", "ref", 1700000000))));
}

#[test]
fn unreadable_cache_runs_the_flow() {
    let (session, _) = start(&config());
    let contents = Some("{\"access_token\": \"abc\"}".to_string());
    let (session, action) = next(get_client(session, SessionEvent::CacheRead(contents)));
    assert!(matches!(action, SessionAction::Login(LoginAction::Present(_))));
    assert_eq!(session.store.current, None);
}

#[test]
fn cached_token_is_renewed_before_it_is_handed_out() {
    let (session, _) = start(&config());
    let contents = Some(token("old", "ref", 5).encode());
    let (session, action) = next(get_client(session, SessionEvent::CacheRead(contents)));
    assert_eq!(action, SessionAction::Refresh(token("old", "ref", 5)));
    assert_eq!(session.phase, SessionPhase::Refreshing);
    assert_eq!(session.store.current, Some(token("old", "ref", 5)));
    let renewed = SessionEvent::Refreshed(Ok(token("new", "ref", 3605)));
    let (session, action) = next(get_client(session, renewed));
    assert_eq!(action, SessionAction::WriteCache("3605\n3\nnewref".to_string()));
    assert_eq!(session.store.current, Some(token("new", "ref", 3605)));
    let step = get_client(session, SessionEvent::CacheWritten);
    assert_eq!(step, SessionStep::Done(Ok(token("new", "ref", 3605))));
}

#[test]
fn rejected_refresh_discards_the_token_and_runs_the_flow() {
    let (session, _) = start(&config());
    let url = session.authorize_url.clone();
    let contents = Some(token("old", "ref", 5).encode());
    let (session, _) = next(get_client(session, SessionEvent::CacheRead(contents)));
    assert_eq!(session.store.current, Some(token("old", "ref", 5)));
    let rejected = SessionEvent::Refreshed(Err(RemoteFailure::CredentialRejected));
    let (session, action) = next(get_client(session, rejected));
    assert_eq!(action, SessionAction::Login(LoginAction::Present(url.unwrap())));
    assert_eq!(session.store.current, None);
    assert_eq!(
        session.phase,
        SessionPhase::Authorizing(AuthFlow::AwaitingRedirect { state: "st4te".to_string() })
    );
}

#[test]
fn transient_refresh_failure_is_fatal() {
    for failure in [RemoteFailure::TransientNetwork, RemoteFailure::RateLimited] {
        let (session, _) = start(&config());
        let contents = Some(token("old", "ref", 5).encode());
        let (session, _) = next(get_client(session, SessionEvent::CacheRead(contents)));
        let step = get_client(session, SessionEvent::Refreshed(Err(failure)));
        assert_eq!(step, SessionStep::Done(Err(Fault::TokenRefreshTransient)));
    }
}

#[test]
fn state_mismatch_during_the_flow_is_fatal() {
    let (session, _) = start(&config());
    let (session, _) = next(get_client(session, SessionEvent::CacheRead(None)));
    let pasted = "http://localhost:8888/callback?code=c0de&state=forged".to_string();
    let step = get_client(session, SessionEvent::Login(LoginEvent::Pasted(pasted)));
    assert_eq!(step, SessionStep::Done(Err(Fault::AuthStateMismatch)));
}

#[test]
fn failed_exchange_during_the_flow_is_fatal() {
    let (session, _) = start(&config());
    let (session, _) = next(get_client(session, SessionEvent::CacheRead(None)));
    let pasted = "http://localhost:8888/callback?code=c0de&state=st4te".to_string();
    let (session, _) = next(get_client(session, SessionEvent::Login(LoginEvent::Pasted(pasted))));
    let failed = SessionEvent::Login(LoginEvent::Exchanged(Err(RemoteFailure::TransientNetwork)));
    assert_eq!(get_client(session, failed), SessionStep::Done(Err(Fault::TokenExchangeFailed)));
}

#[test]
fn flow_without_an_address_cannot_start() {
    let (mut session, _) = start(&config());
    session.authorize_url = None;
    let step = get_client(session, SessionEvent::CacheRead(None));
    assert_eq!(step, SessionStep::Done(Err(Fault::AuthorizeUrlUnavailable)));
}

#[test]
fn session_event_out_of_turn_ends_the_session() {
    let failed = SessionStep::Done(Err(Fault::RemoteUnavailable));
    let (session, _) = start(&config());
    assert_eq!(get_client(session, SessionEvent::CacheWritten), failed);
    let (session, _) = start(&config());
    let contents = Some(token("old", "ref", 5).encode());
    let (session, _) = next(get_client(session, SessionEvent::CacheRead(contents)));
    assert_eq!(get_client(session, SessionEvent::CacheRead(None)), failed);
    let (session, _) = start(&config());
    let (session, _) = next(get_client(session, SessionEvent::CacheRead(None)));
    assert_eq!(get_client(session, SessionEvent::CacheWritten), failed);
    let (session, _) = start(&config());
    let contents = Some(token("old", "ref", 5).encode());
    let (session, _) = next(get_client(session, SessionEvent::CacheRead(contents)));
    let (session, _) =
        next(get_client(session, SessionEvent::Refreshed(Ok(token("new", "ref", 9)))));
    assert_eq!(get_client(session, SessionEvent::CacheRead(None)), failed);
}
