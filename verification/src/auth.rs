//! The authorization flow: obtains a new token with the consent of the
//! account's owner.
//!
//! The owner is shown the address at which access is granted, grants it in a
//! browser, and pastes back the address to which the browser was sent. That
//! address carries a code, which is exchanged for a token. The code is taken
//! only from an address that also carries the state that this client sent
//! out; any other address ends the flow, which has to be run again. A failed
//! exchange ends the flow too: nothing is tried a second time.
//!
//! [`begin_login`] starts the flow and [`login`] takes it through its steps.

use vstd::prelude::*;
use vstd::string::{StrSliceExecFns, StringExecFns};
use crate::fault::{Fault, FaultView};
use crate::remote::{parse_response_code, response_code};
use crate::token::{RemoteFailure, Token, TokenView};

verus! {

/// Whether `c` is white space, as Unicode's property `White_Space` has it.
pub open spec fn is_space(c: char) -> bool {
    let code = c as u32;
    ||| 0x09 <= code <= 0x0D
    ||| code == 0x20
    ||| code == 0x85
    ||| code == 0xA0
    ||| code == 0x1680
    ||| 0x2000 <= code <= 0x200A
    ||| code == 0x2028
    ||| code == 0x2029
    ||| code == 0x202F
    ||| code == 0x205F
    ||| code == 0x3000
}

/// `text` without the white space at its beginning and at its end.
pub open spec fn trimmed(text: Seq<char>) -> Seq<char>
    decreases text.len(),
{
    if text.len() == 0 {
        text
    } else if is_space(text.first()) {
        trimmed(text.drop_first())
    } else if is_space(text.last()) {
        trimmed(text.drop_last())
    } else {
        text
    }
}

/// What is left of a text between the white space at its two ends.
proof fn lemma_trimmed_is_middle(text: Seq<char>, from: int, to: int)
    requires
        0 <= from <= to <= text.len(),
        forall|k: int| 0 <= k < from ==> is_space(#[trigger] text[k]),
        forall|k: int| to <= k < text.len() ==> is_space(#[trigger] text[k]),
        from < to ==> !is_space(text[from]) && !is_space(text[to - 1]),
    ensures
        trimmed(text) == text.subrange(from, to),
    decreases text.len(),
{
    if text.len() == 0 {
        assert(text.subrange(from, to) =~= text);
    } else if is_space(text.first()) {
        let rest = text.drop_first();
        if from == 0 {
            assert(to == 0);
            assert forall|k: int| 0 <= k < rest.len() implies is_space(#[trigger] rest[k]) by {
                assert(rest[k] == text[k + 1]);
            }
            lemma_trimmed_is_middle(rest, 0, 0);
            assert(rest.subrange(0, 0) =~= text.subrange(0, 0));
        } else {
            assert forall|k: int| 0 <= k < from - 1 implies is_space(#[trigger] rest[k]) by {
                assert(rest[k] == text[k + 1]);
            }
            assert forall|k: int| to - 1 <= k < rest.len() implies is_space(#[trigger] rest[k]) by {
                assert(rest[k] == text[k + 1]);
            }
            lemma_trimmed_is_middle(rest, from - 1, to - 1);
            assert(rest.subrange(from - 1, to - 1) =~= text.subrange(from, to));
        }
    } else if is_space(text.last()) {
        let rest = text.drop_last();
        assert(from == 0) by {
            if from > 0 {
                assert(is_space(text[0]));
            }
        }
        assert(to < text.len());
        lemma_trimmed_is_middle(rest, 0, to);
        assert(rest.subrange(0, to) =~= text.subrange(from, to));
    } else {
        assert(from == 0) by {
            if from > 0 {
                assert(is_space(text[0]));
            }
        }
        assert(to == text.len()) by {
            if to < text.len() {
                assert(is_space(text[text.len() - 1]));
            }
        }
        assert(text.subrange(from, to) =~= text);
    }
}

fn space(c: char) -> (white: bool)
    ensures
        white == is_space(c),
{
    let code = c as u32;
    (0x09 <= code && code <= 0x0D) || code == 0x20 || code == 0x85 || code == 0xA0 || code
        == 0x1680 || (0x2000 <= code && code <= 0x200A) || code == 0x2028 || code == 0x2029 || code
        == 0x202F || code == 0x205F || code == 0x3000
}

/// Where the white space at the beginning of `text` ends.
fn leading_space(text: &str, length: usize) -> (from: usize)
    requires
        length == text@.len(),
    ensures
        from <= length,
        forall|k: int| 0 <= k < from ==> is_space(#[trigger] text@[k]),
        from < length ==> !is_space(text@[from as int]),
{
    let mut from: usize = 0;
    while from < length
        invariant
            from <= length == text@.len(),
            forall|k: int| 0 <= k < from ==> is_space(#[trigger] text@[k]),
        decreases length - from,
    {
        if !space(text.get_char(from)) {
            return from;
        }
        from = from + 1;
    }
    from
}

/// Where the white space at the end of `text` begins, looked for from `from`
/// on.
fn trailing_space(text: &str, from: usize, length: usize) -> (to: usize)
    requires
        from <= length == text@.len(),
    ensures
        from <= to <= length,
        forall|k: int| to <= k < length ==> is_space(#[trigger] text@[k]),
        from < to ==> !is_space(text@[to - 1]),
{
    let mut to: usize = length;
    while to > from
        invariant
            from <= to <= length == text@.len(),
            forall|k: int| to <= k < length ==> is_space(#[trigger] text@[k]),
        decreases to - from,
    {
        if !space(text.get_char(to - 1)) {
            return to;
        }
        to = to - 1;
    }
    to
}

/// `text` without the white space at its beginning and at its end.
pub fn trim(text: &str) -> (kept: &str)
    ensures
        kept@ == trimmed(text@),
{
    let length = text.unicode_len();
    let from = leading_space(text, length);
    let to = trailing_space(text, from, length);
    proof {
        lemma_trimmed_is_middle(text@, from as int, to as int);
    }
    text.substring_char(from, to)
}

/// The answer that the flow is waiting for.
#[derive(Debug, PartialEq, Eq)]
pub enum AuthFlow {
    /// The owner was shown where to grant access; `state` is the state that
    /// the address shown carries.
    AwaitingRedirect { state: String },
    /// The service was asked to exchange the code for a token.
    AwaitingToken,
}

pub enum AuthFlowView {
    AwaitingRedirect { state: Seq<char> },
    AwaitingToken,
}

impl View for AuthFlow {
    type V = AuthFlowView;

    open spec fn view(&self) -> AuthFlowView {
        match *self {
            AuthFlow::AwaitingRedirect { state } => AuthFlowView::AwaitingRedirect { state: state@ },
            AuthFlow::AwaitingToken => AuthFlowView::AwaitingToken,
        }
    }
}

/// What can happen to the flow.
#[derive(Debug, PartialEq, Eq)]
pub enum LoginEvent {
    /// The owner pasted this line.
    Pasted(String),
    /// The service answered the exchange, with a token or with its refusal.
    Exchanged(Result<Token, RemoteFailure>),
}

pub enum LoginEventView {
    Pasted(Seq<char>),
    Exchanged(Result<TokenView, RemoteFailure>),
}

/// What the service answered, by what it holds.
pub open spec fn answer_of(answer: Result<Token, RemoteFailure>) -> Result<
    TokenView,
    RemoteFailure,
> {
    match answer {
        Ok(token) => Ok(token@),
        Err(failure) => Err(failure),
    }
}

impl View for LoginEvent {
    type V = LoginEventView;

    open spec fn view(&self) -> LoginEventView {
        match *self {
            LoginEvent::Pasted(line) => LoginEventView::Pasted(line@),
            LoginEvent::Exchanged(answer) => LoginEventView::Exchanged(answer_of(answer)),
        }
    }
}

/// What the flow asks its driver to do next.
#[derive(Debug, PartialEq, Eq)]
pub enum LoginAction {
    /// Show the owner this address, in a browser if one opens, and read the
    /// line that is pasted back.
    Present(String),
    /// Ask the service to exchange this code for a token.
    Exchange(String),
}

pub enum LoginActionView {
    Present(Seq<char>),
    Exchange(Seq<char>),
}

impl View for LoginAction {
    type V = LoginActionView;

    open spec fn view(&self) -> LoginActionView {
        match *self {
            LoginAction::Present(url) => LoginActionView::Present(url@),
            LoginAction::Exchange(code) => LoginActionView::Exchange(code@),
        }
    }
}

/// How a step leaves the flow: waiting for the answer to an action, or ended
/// with the new token or with a fault.
#[derive(Debug, PartialEq, Eq)]
pub enum LoginStep {
    Next(AuthFlow, LoginAction),
    Done(Result<Token, Fault>),
}

pub enum LoginStepView {
    Next(AuthFlowView, LoginActionView),
    Done(Result<TokenView, FaultView>),
}

impl View for LoginStep {
    type V = LoginStepView;

    open spec fn view(&self) -> LoginStepView {
        match *self {
            LoginStep::Next(flow, action) => LoginStepView::Next(flow@, action@),
            LoginStep::Done(Ok(token)) => LoginStepView::Done(Ok(token@)),
            LoginStep::Done(Err(fault)) => LoginStepView::Done(Err(fault@)),
        }
    }
}

/// The first step of the flow. Without an address to show there is no way to
/// grant access.
pub open spec fn login_start(state: Seq<char>, authorize_url: Option<Seq<char>>) -> LoginStepView {
    match authorize_url {
        Some(url) => LoginStepView::Next(
            AuthFlowView::AwaitingRedirect { state },
            LoginActionView::Present(url),
        ),
        None => LoginStepView::Done(Err(FaultView::AuthorizeUrlUnavailable)),
    }
}

/// What follows once the address pasted back has been searched for its code.
pub open spec fn redirect_step(code: Option<Seq<char>>) -> LoginStepView {
    match code {
        Some(code) => LoginStepView::Next(AuthFlowView::AwaitingToken, LoginActionView::Exchange(code)),
        None => LoginStepView::Done(Err(FaultView::AuthStateMismatch)),
    }
}

/// One step of the flow. The line pasted back is searched, without the
/// white space around it, for the code that comes with the state sent out.
/// An event that does not answer the pending action ends the flow as the
/// remote's failure.
pub open spec fn login_step(flow: AuthFlowView, event: LoginEventView) -> LoginStepView {
    match (flow, event) {
        (AuthFlowView::AwaitingRedirect { state }, LoginEventView::Pasted(line)) => redirect_step(
            response_code(state, trimmed(line)),
        ),
        (AuthFlowView::AwaitingToken, LoginEventView::Exchanged(Ok(token))) => LoginStepView::Done(
            Ok(token),
        ),
        (AuthFlowView::AwaitingToken, LoginEventView::Exchanged(Err(_))) => LoginStepView::Done(
            Err(FaultView::TokenExchangeFailed),
        ),
        _ => LoginStepView::Done(Err(FaultView::RemoteUnavailable)),
    }
}

/// Starts the flow for a client that sends out `state`, with the address at
/// which access is granted, if that address could be formed.
pub fn begin_login(state: String, authorize_url: Option<String>) -> (step: LoginStep)
    ensures
        step@ == login_start(
            state@,
            match authorize_url {
                Some(url) => Some(url@),
                None => None,
            },
        ),
{
    match authorize_url {
        Some(url) => LoginStep::Next(AuthFlow::AwaitingRedirect { state }, LoginAction::Present(url)),
        None => LoginStep::Done(Err(Fault::AuthorizeUrlUnavailable)),
    }
}

/// Goes on once the address pasted back has been searched: with the
/// exchange of the code that was found, or to the end where none was.
pub fn after_redirect(code: Option<String>) -> (step: LoginStep)
    ensures
        step@ == redirect_step(
            match code {
                Some(code) => Some(code@),
                None => None,
            },
        ),
{
    match code {
        Some(code) => LoginStep::Next(AuthFlow::AwaitingToken, LoginAction::Exchange(code)),
        None => LoginStep::Done(Err(Fault::AuthStateMismatch)),
    }
}

/// Takes the flow one step on: given the answer to the action that was
/// pending, says what is to be done next or how the flow ended.
pub fn login(flow: AuthFlow, event: LoginEvent) -> (step: LoginStep)
    ensures
        step@ == login_step(flow@, event@),
{
    match flow {
        AuthFlow::AwaitingRedirect { state } => match event {
            LoginEvent::Pasted(line) => after_redirect(
                parse_response_code(state.as_str(), trim(line.as_str())),
            ),
            _ => LoginStep::Done(Err(Fault::RemoteUnavailable)),
        },
        AuthFlow::AwaitingToken => match event {
            LoginEvent::Exchanged(Ok(token)) => LoginStep::Done(Ok(token)),
            LoginEvent::Exchanged(Err(_)) => LoginStep::Done(Err(Fault::TokenExchangeFailed)),
            _ => LoginStep::Done(Err(Fault::RemoteUnavailable)),
        },
    }
}

} // verus!
