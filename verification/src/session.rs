//! The session: comes by a token that can be used at once.
//!
//! A token that the cache file holds is never used as it is. It is renewed
//! first, whether it has expired or not, and the renewed token is written
//! to the cache file before it is handed out. Where the cache file holds no
//! token, and where the service refuses the credential of the one it holds,
//! a new token is had by the authorization flow, and the token refused is
//! let go of. A renewal that fails for another reason ends the run, and the
//! cache file is left alone: its token may be good on the next run.
//!
//! [`start`] begins a session and [`get_client`] takes it through its
//! steps.

use vstd::prelude::*;
use crate::auth::{
    answer_of, begin_login, login, login_start, login_step, AuthFlow, AuthFlowView, LoginAction,
    LoginActionView, LoginEvent, LoginEventView, LoginStep, LoginStepView,
};
use crate::config::{text_of, AuthConfig};
use crate::fault::{Fault, FaultView};
use crate::remote::authorize_url;
use crate::token::{encoding, loading, RemoteFailure, Token, TokenStore, TokenView};

verus! {

/// The answer that the session is waiting for.
#[derive(Debug, PartialEq, Eq)]
pub enum SessionPhase {
    /// The cache file is being read.
    Loading,
    /// The service was asked to renew the token that was loaded.
    Refreshing,
    /// The authorization flow is under way.
    Authorizing(AuthFlow),
    /// This token is being written to the cache file.
    Saving(Token),
}

pub enum SessionPhaseView {
    Loading,
    Refreshing,
    Authorizing(AuthFlowView),
    Saving(TokenView),
}

impl View for SessionPhase {
    type V = SessionPhaseView;

    open spec fn view(&self) -> SessionPhaseView {
        match *self {
            SessionPhase::Loading => SessionPhaseView::Loading,
            SessionPhase::Refreshing => SessionPhaseView::Refreshing,
            SessionPhase::Authorizing(flow) => SessionPhaseView::Authorizing(flow@),
            SessionPhase::Saving(token) => SessionPhaseView::Saving(token@),
        }
    }
}

/// A session on its way to a token.
#[derive(Debug, PartialEq, Eq)]
pub struct Session {
    /// The state that this client sends out when it asks for access.
    pub state: String,
    /// The address at which access is granted, if it could be formed.
    pub authorize_url: Option<String>,
    pub store: TokenStore,
    pub phase: SessionPhase,
}

pub struct SessionView {
    pub state: Seq<char>,
    pub authorize_url: Option<Seq<char>>,
    pub store: Option<TokenView>,
    pub phase: SessionPhaseView,
}

impl View for Session {
    type V = SessionView;

    open spec fn view(&self) -> SessionView {
        SessionView {
            state: self.state@,
            authorize_url: text_of(self.authorize_url),
            store: self.store@,
            phase: self.phase@,
        }
    }
}

/// What can happen to a session.
#[derive(Debug, PartialEq, Eq)]
pub enum SessionEvent {
    /// The cache file was read: it holds this text, or it is absent or
    /// cannot be read.
    CacheRead(Option<String>),
    /// The service answered the renewal, with a token or with its refusal.
    Refreshed(Result<Token, RemoteFailure>),
    /// Something happened to the authorization flow.
    Login(LoginEvent),
    /// The cache file was written.
    CacheWritten,
}

pub enum SessionEventView {
    CacheRead(Option<Seq<char>>),
    Refreshed(Result<TokenView, RemoteFailure>),
    Login(LoginEventView),
    CacheWritten,
}

impl View for SessionEvent {
    type V = SessionEventView;

    open spec fn view(&self) -> SessionEventView {
        match *self {
            SessionEvent::CacheRead(contents) => SessionEventView::CacheRead(text_of(contents)),
            SessionEvent::Refreshed(answer) => SessionEventView::Refreshed(answer_of(answer)),
            SessionEvent::Login(event) => SessionEventView::Login(event@),
            SessionEvent::CacheWritten => SessionEventView::CacheWritten,
        }
    }
}

/// What a session asks its driver to do next.
#[derive(Debug, PartialEq, Eq)]
pub enum SessionAction {
    /// Read the cache file.
    ReadCache,
    /// Ask the service to renew this token.
    Refresh(Token),
    /// Do what the authorization flow asks.
    Login(LoginAction),
    /// Put this text in the place of the cache file, in one move.
    WriteCache(String),
}

pub enum SessionActionView {
    ReadCache,
    Refresh(TokenView),
    Login(LoginActionView),
    WriteCache(Seq<char>),
}

impl View for SessionAction {
    type V = SessionActionView;

    open spec fn view(&self) -> SessionActionView {
        match *self {
            SessionAction::ReadCache => SessionActionView::ReadCache,
            SessionAction::Refresh(token) => SessionActionView::Refresh(token@),
            SessionAction::Login(action) => SessionActionView::Login(action@),
            SessionAction::WriteCache(contents) => SessionActionView::WriteCache(contents@),
        }
    }
}

/// How a step leaves a session: waiting for the answer to an action, or
/// ended with the token to use or with a fault.
#[derive(Debug, PartialEq, Eq)]
pub enum SessionStep {
    Next(Session, SessionAction),
    Done(Result<Token, Fault>),
}

pub enum SessionStepView {
    Next(SessionView, SessionActionView),
    Done(Result<TokenView, FaultView>),
}

impl View for SessionStep {
    type V = SessionStepView;

    open spec fn view(&self) -> SessionStepView {
        match *self {
            SessionStep::Next(session, action) => SessionStepView::Next(session@, action@),
            SessionStep::Done(Ok(token)) => SessionStepView::Done(Ok(token@)),
            SessionStep::Done(Err(fault)) => SessionStepView::Done(Err(fault@)),
        }
    }
}

/// The session turns to the authorization flow, holding no token.
pub open spec fn authorize(state: Seq<char>, authorize_url: Option<Seq<char>>) -> SessionStepView {
    match login_start(state, authorize_url) {
        LoginStepView::Next(flow, action) => SessionStepView::Next(
            SessionView {
                state,
                authorize_url,
                store: None,
                phase: SessionPhaseView::Authorizing(flow),
            },
            SessionActionView::Login(action),
        ),
        LoginStepView::Done(outcome) => SessionStepView::Done(outcome),
    }
}

/// The session takes up a token that the service has just issued and has it
/// written to the cache file.
pub open spec fn keep(
    state: Seq<char>,
    authorize_url: Option<Seq<char>>,
    token: TokenView,
) -> SessionStepView {
    SessionStepView::Next(
        SessionView {
            state,
            authorize_url,
            store: Some(token),
            phase: SessionPhaseView::Saving(token),
        },
        SessionActionView::WriteCache(encoding(token)),
    )
}

/// One step of a session. An event that does not answer the pending action
/// ends the session as the remote's failure.
pub open spec fn session_step(session: SessionView, event: SessionEventView) -> SessionStepView {
    match (session.phase, event) {
        (SessionPhaseView::Loading, SessionEventView::CacheRead(contents)) => match loading(
            contents,
        ) {
            Some(token) => SessionStepView::Next(
                SessionView { store: Some(token), phase: SessionPhaseView::Refreshing, ..session },
                SessionActionView::Refresh(token),
            ),
            None => authorize(session.state, session.authorize_url),
        },
        (SessionPhaseView::Refreshing, SessionEventView::Refreshed(Ok(token))) => keep(
            session.state,
            session.authorize_url,
            token,
        ),
        (
            SessionPhaseView::Refreshing,
            SessionEventView::Refreshed(Err(RemoteFailure::CredentialRejected)),
        ) => authorize(session.state, session.authorize_url),
        (SessionPhaseView::Refreshing, SessionEventView::Refreshed(Err(_))) => SessionStepView::Done(
            Err(FaultView::TokenRefreshTransient),
        ),
        (SessionPhaseView::Authorizing(flow), SessionEventView::Login(event)) => match login_step(
            flow,
            event,
        ) {
            LoginStepView::Next(flow, action) => SessionStepView::Next(
                SessionView { phase: SessionPhaseView::Authorizing(flow), ..session },
                SessionActionView::Login(action),
            ),
            LoginStepView::Done(Ok(token)) => keep(session.state, session.authorize_url, token),
            LoginStepView::Done(Err(fault)) => SessionStepView::Done(Err(fault)),
        },
        (SessionPhaseView::Saving(token), SessionEventView::CacheWritten) => SessionStepView::Done(
            Ok(token),
        ),
        _ => SessionStepView::Done(Err(FaultView::RemoteUnavailable)),
    }
}

/// Begins a session for the client that `config` describes: the cache file
/// is to be read first. The address at which access is granted is formed
/// here, once, for the case that it is needed.
pub fn start(config: &AuthConfig) -> (first: (Session, SessionAction))
    ensures
        first.0@.state == config@.state,
        first.0@.store is None,
        first.0@.phase == SessionPhaseView::Loading,
        first.1@ == SessionActionView::ReadCache,
{
    let authorize_url = match authorize_url(config) {
        Ok(url) => Some(url),
        Err(_) => None,
    };
    let session = Session {
        state: config.state.clone(),
        authorize_url,
        store: TokenStore::new(),
        phase: SessionPhase::Loading,
    };
    (session, SessionAction::ReadCache)
}

fn authorizing(state: String, authorize_url: Option<String>, store: TokenStore) -> (step:
    SessionStep)
    ensures
        step@ == authorize(state@, text_of(authorize_url)),
{
    let mut store = store;
    store.invalidate();
    let shown = match &authorize_url {
        Some(url) => Some(url.clone()),
        None => None,
    };
    match begin_login(state.clone(), shown) {
        LoginStep::Next(flow, action) => SessionStep::Next(
            Session { state, authorize_url, store, phase: SessionPhase::Authorizing(flow) },
            SessionAction::Login(action),
        ),
        LoginStep::Done(outcome) => SessionStep::Done(outcome),
    }
}

fn keeping(state: String, authorize_url: Option<String>, store: TokenStore, token: Token) -> (step:
    SessionStep)
    ensures
        step@ == keep(state@, text_of(authorize_url), token@),
{
    let mut store = store;
    let held = token.clone();
    let contents = store.save(token);
    SessionStep::Next(
        Session { state, authorize_url, store, phase: SessionPhase::Saving(held) },
        SessionAction::WriteCache(contents),
    )
}

/// Takes a session one step on: given the answer to the action that was
/// pending, says what is to be done next or how the session ended.
pub fn get_client(session: Session, event: SessionEvent) -> (step: SessionStep)
    ensures
        step@ == session_step(session@, event@),
{
    let Session { state, authorize_url, mut store, phase } = session;
    match phase {
        SessionPhase::Loading => match event {
            SessionEvent::CacheRead(contents) => {
                let loaded = store.load(
                    match &contents {
                        Some(text) => Some(text.as_str()),
                        None => None,
                    },
                );
                match loaded {
                    Some(token) => SessionStep::Next(
                        Session { state, authorize_url, store, phase: SessionPhase::Refreshing },
                        SessionAction::Refresh(token),
                    ),
                    None => authorizing(state, authorize_url, store),
                }
            },
            _ => SessionStep::Done(Err(Fault::RemoteUnavailable)),
        },
        SessionPhase::Refreshing => match event {
            SessionEvent::Refreshed(Ok(token)) => keeping(state, authorize_url, store, token),
            SessionEvent::Refreshed(Err(RemoteFailure::CredentialRejected)) => authorizing(
                state,
                authorize_url,
                store,
            ),
            SessionEvent::Refreshed(Err(_)) => SessionStep::Done(Err(Fault::TokenRefreshTransient)),
            _ => SessionStep::Done(Err(Fault::RemoteUnavailable)),
        },
        SessionPhase::Authorizing(flow) => match event {
            SessionEvent::Login(event) => match login(flow, event) {
                LoginStep::Next(flow, action) => SessionStep::Next(
                    Session { state, authorize_url, store, phase: SessionPhase::Authorizing(flow) },
                    SessionAction::Login(action),
                ),
                LoginStep::Done(Ok(token)) => keeping(state, authorize_url, store, token),
                LoginStep::Done(Err(fault)) => SessionStep::Done(Err(fault)),
            },
            _ => SessionStep::Done(Err(Fault::RemoteUnavailable)),
        },
        SessionPhase::Saving(token) => match event {
            SessionEvent::CacheWritten => SessionStep::Done(Ok(token)),
            _ => SessionStep::Done(Err(Fault::RemoteUnavailable)),
        },
    }
}

/// How a session ends that takes `events` in turn: with the outcome of the
/// first step that ends it, or not at all where the events run out before.
pub open spec fn session_outcome(session: SessionView, events: Seq<SessionEventView>) -> Option<
    Result<TokenView, FaultView>,
>
    decreases events.len(),
{
    if events.len() == 0 {
        None
    } else {
        match session_step(session, events.first()) {
            SessionStepView::Done(outcome) => Some(outcome),
            SessionStepView::Next(next, _) => session_outcome(next, events.drop_first()),
        }
    }
}

/// With `event` the service issues `token`: as the renewal of the token
/// loaded, or in exchange for a code.
pub open spec fn issues(event: SessionEventView, token: TokenView) -> bool {
    ||| event == SessionEventView::Refreshed(Ok(token))
    ||| event == SessionEventView::Login(LoginEventView::Exchanged(Ok(token)))
}

proof fn lemma_outcome_was_issued(
    session: SessionView,
    events: Seq<SessionEventView>,
    token: TokenView,
)
    requires
        session_outcome(session, events) == Some(Ok::<TokenView, FaultView>(token)),
    ensures
        session.phase == SessionPhaseView::Saving(token) || exists|i: int|
            0 <= i < events.len() && issues(#[trigger] events[i], token),
    decreases events.len(),
{
    if events.len() > 0 {
        match session_step(session, events.first()) {
            SessionStepView::Done(_) => {},
            SessionStepView::Next(next, _) => {
                let later = events.drop_first();
                lemma_outcome_was_issued(next, later, token);
                if next.phase == SessionPhaseView::Saving(token) {
                    assert(issues(events[0], token));
                } else {
                    let i = choose|i: int| 0 <= i < later.len() && issues(#[trigger] later[i], token);
                    assert(issues(events[i + 1], token));
                }
            },
        }
    }
}

/// The token with which a session ends is one that the service issued
/// during that session, by renewing the token loaded or in exchange for a
/// code: a token is never handed out as it was loaded from the cache file.
pub proof fn lemma_token_is_fresh(
    session: SessionView,
    events: Seq<SessionEventView>,
    token: TokenView,
)
    requires
        session.phase is Loading,
        session_outcome(session, events) == Some(Ok::<TokenView, FaultView>(token)),
    ensures
        exists|i: int| 0 <= i < events.len() && issues(#[trigger] events[i], token),
{
    lemma_outcome_was_issued(session, events, token);
}

} // verus!
