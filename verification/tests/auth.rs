use spotifav::auth::{
    after_redirect, begin_login, login, trim, AuthFlow, LoginAction, LoginEvent, LoginStep,
};
use spotifav::fault::Fault;
use spotifav::token::{RemoteFailure, Token};

fn awaiting(state: &str) -> AuthFlow {
    AuthFlow::AwaitingRedirect { state: state.to_string() }
}

fn pasted(line: &str) -> LoginEvent {
    LoginEvent::Pasted(line.to_string())
}

#[test]
fn trim_drops_white_space_at_both_ends() {
    assert_eq!(trim("  hello world \n"), "hello world");
    assert_eq!(trim("hello"), "hello");
    assert_eq!(trim(""), "");
    assert_eq!(trim(" \t\r\n"), "");
    assert_eq!(trim("\u{a0}x\u{3000}"), "x");
    assert_eq!(trim("a b"), "a b");
    assert_eq!(trim("\u{200b}x"), "\u{200b}x");
}

#[test]
fn trim_agrees_with_the_standard_library() {
    let spaces = [
        '\u{9}', '\u{a}', '\u{b}', '\u{c}', '\u{d}', '\u{20}', '\u{85}', '\u{a0}', '\u{1680}',
        '\u{2000}', '\u{2001}', '\u{2002}', '\u{2003}', '\u{2004}', '\u{2005}', '\u{2006}',
        '\u{2007}', '\u{2008}', '\u{2009}', '\u{200a}', '\u{2028}', '\u{2029}', '\u{202f}',
        '\u{205f}', '\u{3000}',
    ];
    for space in spaces {
        let text = format!("{}a{}b{}", space, space, space);
        assert_eq!(trim(&text), text.trim());
        assert_eq!(trim(&text).chars().count(), 3);
    }
    let others = ['\u{8}', '\u{e}', '\u{1f}', '\u{21}', '\u{84}', '\u{86}', '\u{180e}', '\u{200b}',
        '\u{200c}', '\u{2060}', '\u{feff}', 'x', '0'];
    for other in others {
        let text = format!("{} a {}", other, other);
        assert_eq!(trim(&text), text.trim());
        assert_eq!(trim(&text), text);
    }
}

#[test]
fn flow_starts_by_presenting_the_address() {
    let step = begin_login("st4te".to_string(), Some("https://example.test/authorize".to_string()));
    assert_eq!(
        step,
        LoginStep::Next(
            awaiting("st4te"),
            LoginAction::Present("https://example.test/authorize".to_string())
        )
    );
}

#[test]
fn flow_cannot_start_without_an_address() {
    assert_eq!(
        begin_login("st4te".to_string(), None),
        LoginStep::Done(Err(Fault::AuthorizeUrlUnavailable))
    );
}

#[test]
fn code_found_is_exchanged() {
    assert_eq!(
        after_redirect(Some("c0de".to_string())),
        LoginStep::Next(AuthFlow::AwaitingToken, LoginAction::Exchange("c0de".to_string()))
    );
}

#[test]
fn no_code_ends_the_flow() {
    assert_eq!(after_redirect(None), LoginStep::Done(Err(Fault::AuthStateMismatch)));
}

#[test]
fn pasted_address_with_matching_state_gives_its_code() {
    let step = login(awaiting("st4te"), pasted("http://localhost:8888/?code=AQDc0de&state=st4te"));
    assert_eq!(
        step,
        LoginStep::Next(AuthFlow::AwaitingToken, LoginAction::Exchange("AQDc0de".to_string()))
    );
}

#[test]
fn pasted_address_is_trimmed_before_it_is_read() {
    let step =
        login(awaiting("st4te"), pasted("  http://localhost:8888/cb?state=st4te&code=xyz \r\n"));
    assert_eq!(
        step,
        LoginStep::Next(AuthFlow::AwaitingToken, LoginAction::Exchange("xyz".to_string()))
    );
}

#[test]
fn pasted_address_with_another_state_is_refused() {
    let step = login(awaiting("st4te"), pasted("http://localhost:8888/?code=AQDc0de&state=other"));
    assert_eq!(step, LoginStep::Done(Err(Fault::AuthStateMismatch)));
}

#[test]
fn pasted_address_without_state_is_refused() {
    let step = login(awaiting("st4te"), pasted("http://localhost:8888/?code=AQDc0de"));
    assert_eq!(step, LoginStep::Done(Err(Fault::AuthStateMismatch)));
}

#[test]
fn pasted_address_without_code_is_refused() {
    let step = login(awaiting("st4te"), pasted("http://localhost:8888/?state=st4te"));
    assert_eq!(step, LoginStep::Done(Err(Fault::AuthStateMismatch)));
}

#[test]
fn pasted_text_that_is_no_address_is_refused() {
    assert_eq!(
        login(awaiting("st4te"), pasted("code=AQDc0de&state=st4te")),
        LoginStep::Done(Err(Fault::AuthStateMismatch))
    );
    assert_eq!(login(awaiting("st4te"), pasted("")), LoginStep::Done(Err(Fault::AuthStateMismatch)));
}

#[test]
fn exchanged_token_ends_the_flow() {
    let token = Token::new("acc".to_string(), "ref".to_string(), 42);
    let expected = Token::new("acc".to_string(), "ref".to_string(), 42);
    assert_eq!(
        login(AuthFlow::AwaitingToken, LoginEvent::Exchanged(Ok(token))),
        LoginStep::Done(Ok(expected))
    );
}

#[test]
fn failed_exchange_ends_the_flow() {
    for failure in [
        RemoteFailure::CredentialRejected,
        RemoteFailure::TransientNetwork,
        RemoteFailure::RateLimited,
    ] {
        assert_eq!(
            login(AuthFlow::AwaitingToken, LoginEvent::Exchanged(Err(failure))),
            LoginStep::Done(Err(Fault::TokenExchangeFailed))
        );
    }
}

#[test]
fn login_event_out_of_turn_ends_the_flow() {
    let token = Token::new("acc".to_string(), "ref".to_string(), 42);
    assert_eq!(
        login(awaiting("st4te"), LoginEvent::Exchanged(Ok(token))),
        LoginStep::Done(Err(Fault::RemoteUnavailable))
    );
    assert_eq!(
        login(AuthFlow::AwaitingToken, pasted("http://localhost:8888/?code=c&state=st4te")),
        LoginStep::Done(Err(Fault::RemoteUnavailable))
    );
}
