//! What the library takes from the service's client crate, `rspotify`.
//!
//! Nothing here is proved: each contract states what the crate's source
//! shows of the function that is called.

use vstd::prelude::*;
use rspotify::clients::OAuthClient;
use crate::config::AuthConfig;

verus! {

/// The error type of the calls into `rspotify`.
#[verifier::external_type_specification]
#[verifier::external_body]
pub struct ExClientError(rspotify::ClientError);

/// A character of which `rspotify` makes its state values: a letter of the
/// basic Latin alphabet or a digit.
pub open spec fn is_state_char(c: char) -> bool {
    ('a' <= c && c <= 'z') || ('A' <= c && c <= 'Z') || ('0' <= c && c <= '9')
}

/// The code that `rspotify`'s `OAuthClient::parse_response_code` finds in the
/// address `url` for a client whose state is `state`.
pub uninterp spec fn response_code(state: Seq<char>, url: Seq<char>) -> Option<Seq<char>>;

/// Calls `rspotify::OAuth::default` and takes the state of what it returns.
/// The source draws sixteen characters at random from the letters and
/// digits; it gives up, by a panic, only where the operating system has no
/// random bytes to give.
#[verifier::external_body]
pub(crate) fn fresh_state() -> (state: String)
    ensures
        state@.len() == 16,
        forall|i: int| 0 <= i < 16 ==> is_state_char(#[trigger] state@[i]),
{
    rspotify::OAuth::default().state
}

/// Calls `rspotify::AuthCodeSpotify::get_authorize_url`, without the dialog
/// being forced, on a client made of `config`. The address that comes back
/// lists its parameters in an order that changes from run to run, so nothing
/// is claimed of it.
#[verifier::external_body]
pub(crate) fn authorize_url(config: &AuthConfig) -> (url: Result<String, rspotify::ClientError>) {
    let creds = rspotify::Credentials {
        id: config.client_id.clone(),
        secret: config.client_secret.clone(),
    };
    let oauth = rspotify::OAuth {
        redirect_uri: config.redirect_uri.clone(),
        state: config.state.clone(),
        scopes: config.scopes.iter().cloned().collect(),
        proxies: None,
    };
    rspotify::AuthCodeSpotify::new(creds, oauth).get_authorize_url(false)
}

/// Calls `rspotify`'s `OAuthClient::parse_response_code` on a client whose
/// state is `state`. The source parses `url`, looks among its query
/// parameters for `code` and `state`, and hands the code out if the state
/// found is the client's; what it does depends on `url` and `state` alone.
#[verifier::external_body]
pub(crate) fn parse_response_code(state: &str, url: &str) -> (code: Option<String>)
    ensures
        match code {
            Some(code) => response_code(state@, url@) == Some(code@),
            None => response_code(state@, url@) is None,
        },
{
    let oauth = rspotify::OAuth {
        redirect_uri: String::new(),
        state: state.to_owned(),
        scopes: std::collections::HashSet::new(),
        proxies: None,
    };
    rspotify::AuthCodeSpotify::new(rspotify::Credentials::default(), oauth).parse_response_code(url)
}

} // verus!
