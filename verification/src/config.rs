//! The client's credentials and the settings of the authorization.

use vstd::prelude::*;
use vstd::string::StringExecFns;
use crate::fault::{Fault, FaultView};
use crate::remote::{fresh_state, is_state_char};

verus! {

/// Who the client is and how it asks for access. It does not change while
/// the process runs.
#[derive(Debug, PartialEq, Eq)]
pub struct AuthConfig {
    pub client_id: String,
    pub client_secret: Option<String>,
    pub redirect_uri: String,
    /// What access is asked for; no scope stands twice.
    pub scopes: Vec<String>,
    /// The value by which an answer is known to belong to the request that
    /// this client sent.
    pub state: String,
}

pub struct AuthConfigView {
    pub client_id: Seq<char>,
    pub client_secret: Option<Seq<char>>,
    pub redirect_uri: Seq<char>,
    pub scopes: Seq<Seq<char>>,
    pub state: Seq<char>,
}

/// An optional text as plain text.
pub open spec fn text_of(text: Option<String>) -> Option<Seq<char>> {
    match text {
        Some(text) => Some(text@),
        None => None,
    }
}

impl View for AuthConfig {
    type V = AuthConfigView;

    open spec fn view(&self) -> AuthConfigView {
        AuthConfigView {
            client_id: self.client_id@,
            client_secret: text_of(self.client_secret),
            redirect_uri: self.redirect_uri@,
            scopes: self.scopes.deep_view(),
            state: self.state@,
        }
    }
}

/// The settings as they are found in the environment or in the
/// configuration file, where the scopes and the state may be left out.
#[derive(Debug, PartialEq, Eq)]
pub struct RawConfig {
    pub client_id: String,
    pub client_secret: Option<String>,
    pub redirect_uri: String,
    pub scopes: Option<Vec<String>>,
    pub state: Option<String>,
}

pub struct RawConfigView {
    pub client_id: Seq<char>,
    pub client_secret: Option<Seq<char>>,
    pub redirect_uri: Seq<char>,
    pub scopes: Option<Seq<Seq<char>>>,
    pub state: Option<Seq<char>>,
}

impl View for RawConfig {
    type V = RawConfigView;

    open spec fn view(&self) -> RawConfigView {
        RawConfigView {
            client_id: self.client_id@,
            client_secret: text_of(self.client_secret),
            redirect_uri: self.redirect_uri@,
            scopes: match self.scopes {
                Some(scopes) => Some(scopes.deep_view()),
                None => None,
            },
            state: text_of(self.state),
        }
    }
}

/// The scopes that are asked for where none are named: the one that lets
/// the client see what is playing.
pub open spec fn default_scopes() -> Seq<Seq<char>> {
    seq!["user-read-currently-playing"@]
}

/// `scopes` with each scope kept where it first stands and left out where it
/// stands again.
pub open spec fn without_repeats(scopes: Seq<Seq<char>>) -> Seq<Seq<char>>
    decreases scopes.len(),
{
    if scopes.len() == 0 {
        scopes
    } else {
        let front = without_repeats(scopes.drop_last());
        if front.contains(scopes.last()) {
            front
        } else {
            front.push(scopes.last())
        }
    }
}

/// The settings that `raw` stands for, with `fresh` for the state where
/// `raw` names none.
pub open spec fn completed(raw: RawConfigView, fresh: Seq<char>) -> AuthConfigView {
    AuthConfigView {
        client_id: raw.client_id,
        client_secret: raw.client_secret,
        redirect_uri: raw.redirect_uri,
        scopes: match raw.scopes {
            Some(scopes) => without_repeats(scopes),
            None => default_scopes(),
        },
        state: match raw.state {
            Some(state) => state,
            None => fresh,
        },
    }
}

/// The settings that the environment holds: there are some where both the
/// client's id and the redirect address are set. The secret may be missing.
pub open spec fn from_environment(
    client_id: Option<Seq<char>>,
    client_secret: Option<Seq<char>>,
    redirect_uri: Option<Seq<char>>,
) -> Option<RawConfigView> {
    match (client_id, redirect_uri) {
        (Some(client_id), Some(redirect_uri)) => Some(
            RawConfigView { client_id, client_secret, redirect_uri, scopes: None, state: None },
        ),
        _ => None,
    }
}

/// A state as it is drawn afresh: sixteen letters and digits.
pub open spec fn is_fresh_state(state: Seq<char>) -> bool {
    &&& state.len() == 16
    &&& forall|i: int| 0 <= i < 16 ==> is_state_char(#[trigger] state[i])
}

/// What is left of `scopes` has each of its scopes, and none twice.
pub proof fn lemma_without_repeats(scopes: Seq<Seq<char>>)
    ensures
        without_repeats(scopes).no_duplicates(),
        forall|scope: Seq<char>|
            without_repeats(scopes).contains(scope) <==> scopes.contains(scope),
    decreases scopes.len(),
{
    if scopes.len() > 0 {
        let front = scopes.drop_last();
        lemma_without_repeats(front);
        let kept = without_repeats(front);
        assert forall|scope: Seq<char>|
            without_repeats(scopes).contains(scope) <==> scopes.contains(scope) by {
            if scopes.contains(scope) {
                let i = choose|i: int| 0 <= i < scopes.len() && scopes[i] == scope;
                if i < front.len() {
                    assert(front[i] == scope);
                    assert(front.contains(scope));
                    assert(kept.contains(scope));
                    let j = choose|j: int| 0 <= j < kept.len() && kept[j] == scope;
                    assert(without_repeats(scopes)[j] == scope);
                } else if !kept.contains(scope) {
                    assert(without_repeats(scopes)[kept.len() as int] == scope);
                }
            }
            if without_repeats(scopes).contains(scope) {
                let j = choose|j: int|
                    0 <= j < without_repeats(scopes).len() && without_repeats(scopes)[j] == scope;
                if j < kept.len() {
                    assert(kept[j] == scope);
                    assert(kept.contains(scope));
                    assert(front.contains(scope));
                    let i = choose|i: int| 0 <= i < front.len() && front[i] == scope;
                    assert(scopes[i] == scope);
                } else {
                    assert(scopes[scopes.len() - 1] == scope);
                }
            }
        }
    }
}

/// The scopes that are asked for where none are named.
pub fn get_scopes() -> (scopes: Vec<String>)
    ensures
        scopes.deep_view() == default_scopes(),
{
    let mut scopes: Vec<String> = Vec::new();
    scopes.push(String::from_str("user-read-currently-playing"));
    assert(scopes.deep_view() =~= default_scopes());
    scopes
}

/// Whether `scope` is among `scopes`.
fn holds(scopes: &Vec<String>, scope: &String) -> (found: bool)
    ensures
        found == scopes.deep_view().contains(scope@),
{
    let mut at: usize = 0;
    while at < scopes.len()
        invariant
            at <= scopes.len(),
            forall|k: int| 0 <= k < at ==> #[trigger] scopes.deep_view()[k] != scope@,
        decreases scopes.len() - at,
    {
        if scopes[at] == *scope {
            assert(scopes.deep_view()[at as int] == scope@);
            return true;
        }
        at = at + 1;
    }
    false
}

/// Leaves out of `scopes` each scope that has stood before.
pub fn distinct(scopes: Vec<String>) -> (kept: Vec<String>)
    ensures
        kept.deep_view() == without_repeats(scopes.deep_view()),
{
    let mut kept: Vec<String> = Vec::new();
    let mut at: usize = 0;
    assert(scopes.deep_view().take(0) =~= Seq::<Seq<char>>::empty());
    while at < scopes.len()
        invariant
            at <= scopes.len(),
            kept.deep_view() == without_repeats(scopes.deep_view().take(at as int)),
        decreases scopes.len() - at,
    {
        let ghost before = kept.deep_view();
        let ghost seen = scopes.deep_view().take(at + 1);
        assert(seen.drop_last() =~= scopes.deep_view().take(at as int));
        assert(seen.last() == scopes[at as int]@);
        if !holds(&kept, &scopes[at]) {
            kept.push(scopes[at].clone());
            assert(kept.deep_view() =~= before.push(scopes[at as int]@));
        }
        at = at + 1;
    }
    assert(scopes.deep_view().take(at as int) =~= scopes.deep_view());
    kept
}

impl RawConfig {
    /// The settings that the environment holds, if it holds them in full:
    /// the client's id and the redirect address must both be set.
    pub fn from_env(
        client_id: Option<String>,
        client_secret: Option<String>,
        redirect_uri: Option<String>,
    ) -> (found: Option<RawConfig>)
        ensures
            match found {
                Some(raw) => Some(raw@),
                None => None,
            } == from_environment(text_of(client_id), text_of(client_secret), text_of(redirect_uri)),
    {
        match (client_id, redirect_uri) {
            (Some(client_id), Some(redirect_uri)) => Some(
                RawConfig { client_id, client_secret, redirect_uri, scopes: None, state: None },
            ),
            _ => None,
        }
    }
}

impl AuthConfig {
    /// Whether no scope stands twice.
    pub open spec fn well_formed(&self) -> bool {
        self@.scopes.no_duplicates()
    }

    /// The settings that `raw` stands for, with `fresh` for the state where
    /// `raw` names none.
    pub fn with_state(raw: RawConfig, fresh: String) -> (config: AuthConfig)
        ensures
            config@ == completed(raw@, fresh@),
            config.well_formed(),
    {
        let scopes = match raw.scopes {
            Some(scopes) => {
                proof {
                    lemma_without_repeats(scopes.deep_view());
                }
                distinct(scopes)
            },
            None => get_scopes(),
        };
        let state = match raw.state {
            Some(state) => state,
            None => fresh,
        };
        AuthConfig {
            client_id: raw.client_id,
            client_secret: raw.client_secret,
            redirect_uri: raw.redirect_uri,
            scopes,
            state,
        }
    }
}

/// Makes the settings of what was found of them. Where nothing was found
/// there is no client to speak for, and the run cannot go on. Scopes that
/// are left out are the default ones, and a state that is left out is drawn
/// afresh.
pub fn read_configs(found: Option<RawConfig>) -> (settings: Result<AuthConfig, Fault>)
    ensures
        match found {
            Some(raw) => {
                &&& settings matches Ok(config)
                &&& config@ == completed(raw@, config@.state)
                &&& config.well_formed()
                &&& raw@.state is None ==> is_fresh_state(config@.state)
            },
            None => settings matches Err(fault) && fault@ == FaultView::ConfigMissing,
        },
{
    match found {
        Some(raw) => Ok(AuthConfig::with_state(raw, fresh_state())),
        None => Err(Fault::ConfigMissing),
    }
}

} // verus!
