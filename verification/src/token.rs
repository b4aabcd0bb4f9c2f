//! The token and the store that keeps it.
//!
//! The store keeps the token that is in use and decides what the cache file
//! holds; reading and writing the file is left to the driver. The file holds
//! the token as text: the expiry time, a line break, the number of
//! characters of the access token, a line break, the access token, and the
//! refresh token as the rest. Both numbers are written in decimal without
//! leading zeros. Every token has such a text, and no text is that of two
//! tokens, so what was saved is what loads.

use vstd::prelude::*;
use vstd::string::{StrSliceExecFns, StringExecFns};
use crate::numeral::{
    decimal, is_digit, is_numeral, lemma_decimal_is_numeral, lemma_numeral_is_decimal, number,
    numeral_value, push_decimal, read_numeral,
};

verus! {

/// A bearer credential of the remote service with its means of renewal.
#[derive(Debug, PartialEq, Eq)]
pub struct Token {
    /// The credential that accompanies each call.
    pub access_token: String,
    /// The credential by which a new access token is had.
    pub refresh_token: String,
    /// When the access token expires, in seconds since the Unix epoch.
    pub expires_at: u64,
}

pub struct TokenView {
    pub access_token: Seq<char>,
    pub refresh_token: Seq<char>,
    pub expires_at: u64,
}

impl View for Token {
    type V = TokenView;

    open spec fn view(&self) -> TokenView {
        TokenView {
            access_token: self.access_token@,
            refresh_token: self.refresh_token@,
            expires_at: self.expires_at,
        }
    }
}

impl Clone for Token {
    fn clone(&self) -> (copy: Token)
        ensures
            copy == *self,
    {
        Token {
            access_token: self.access_token.clone(),
            refresh_token: self.refresh_token.clone(),
            expires_at: self.expires_at,
        }
    }
}

/// The text that the cache file holds for a token.
pub open spec fn encoding(token: TokenView) -> Seq<char> {
    decimal(token.expires_at as nat) + seq!['\n'] + decimal(token.access_token.len()) + seq!['\n']
        + token.access_token + token.refresh_token
}

/// The token whose text is `text`, if there is one.
pub open spec fn decoding(text: Seq<char>) -> Option<TokenView> {
    if exists|token: TokenView| encoding(token) == text {
        Some(choose|token: TokenView| encoding(token) == text)
    } else {
        None
    }
}

/// How the text of a token is laid out.
proof fn lemma_encoding_layout(token: TokenView)
    ensures
        ({
            let text = encoding(token);
            let expiry = decimal(token.expires_at as nat);
            let size = decimal(token.access_token.len());
            let first = expiry.len() as int;
            let second = first + 1 + size.len();
            let middle = second + 1 + token.access_token.len();
            &&& is_numeral(expiry) && number(expiry) == token.expires_at
            &&& is_numeral(size) && number(size) == token.access_token.len()
            &&& text.len() == middle + token.refresh_token.len()
            &&& text.subrange(0, first) == expiry
            &&& text[first] == '\n'
            &&& text.subrange(first + 1, second) == size
            &&& text[second] == '\n'
            &&& text.subrange(second + 1, middle) == token.access_token
            &&& text.subrange(middle, text.len() as int) == token.refresh_token
            &&& forall|k: int| 0 <= k < first ==> #[trigger] text[k] != '\n'
            &&& forall|k: int| first < k < second ==> #[trigger] text[k] != '\n'
        }),
{
    let text = encoding(token);
    let expiry = decimal(token.expires_at as nat);
    let size = decimal(token.access_token.len());
    let first = expiry.len() as int;
    let second = first + 1 + size.len();
    let middle = second + 1 + token.access_token.len();
    lemma_decimal_is_numeral(token.expires_at as nat);
    lemma_decimal_is_numeral(token.access_token.len());
    assert(text.subrange(0, first) =~= expiry);
    assert(text.subrange(first + 1, second) =~= size);
    assert(text.subrange(second + 1, middle) =~= token.access_token);
    assert(text.subrange(middle, text.len() as int) =~= token.refresh_token);
    assert forall|k: int| 0 <= k < first implies #[trigger] text[k] != '\n' by {
        assert(text[k] == expiry[k]);
        assert(is_digit(expiry[k]));
    }
    assert forall|k: int| first < k < second implies #[trigger] text[k] != '\n' by {
        assert(text[k] == size[k - first - 1]);
        assert(is_digit(size[k - first - 1]));
    }
}

/// No text is that of two tokens.
pub proof fn lemma_encoding_tells_tokens_apart(one: TokenView, other: TokenView)
    requires
        encoding(one) == encoding(other),
    ensures
        one == other,
{
    lemma_encoding_layout(one);
    lemma_encoding_layout(other);
    let text = encoding(one);
    let first = decimal(one.expires_at as nat).len() as int;
    assert(first == decimal(other.expires_at as nat).len()) by {
        assert(text[first] == '\n');
        assert(text[decimal(other.expires_at as nat).len() as int] == '\n');
    }
    let second = first + 1 + decimal(one.access_token.len()).len();
    assert(second == first + 1 + decimal(other.access_token.len()).len()) by {
        assert(text[second] == '\n');
        assert(text[first + 1 + decimal(other.access_token.len()).len()] == '\n');
    }
    assert(one.access_token =~= other.access_token);
    assert(one.refresh_token =~= other.refresh_token);
}

/// A token that was saved is the token that loads: the text written for a
/// token is read back as that token, whatever the token holds.
pub proof fn lemma_saved_token_loads(token: TokenView)
    ensures
        decoding(encoding(token)) == Some(token),
{
    let found = choose|found: TokenView| encoding(found) == encoding(token);
    lemma_encoding_tells_tokens_apart(found, token);
}

/// The place of the first line break in `text` from `from` on.
fn find_break(text: &str, from: usize, length: usize) -> (place: Option<usize>)
    requires
        from <= length == text@.len(),
    ensures
        match place {
            Some(at) => {
                &&& from <= at < length
                &&& text@[at as int] == '\n'
                &&& forall|k: int| from <= k < at ==> #[trigger] text@[k] != '\n'
            },
            None => forall|k: int| from <= k < length ==> #[trigger] text@[k] != '\n',
        },
{
    let mut at: usize = from;
    while at < length
        invariant
            from <= at <= length == text@.len(),
            forall|k: int| from <= k < at ==> #[trigger] text@[k] != '\n',
        decreases length - at,
    {
        if text.get_char(at) == '\n' {
            return Some(at);
        }
        at = at + 1;
    }
    None
}

impl Token {
    pub fn new(access_token: String, refresh_token: String, expires_at: u64) -> (token: Token)
        ensures
            token.access_token == access_token,
            token.refresh_token == refresh_token,
            token.expires_at == expires_at,
    {
        Token { access_token, refresh_token, expires_at }
    }

    /// The text to keep in the cache file for this token.
    pub fn encode(&self) -> (text: String)
        ensures
            text@ == encoding(self@),
    {
        proof {
            reveal_strlit("\n");
        }
        let mut text = String::new();
        push_decimal(&mut text, self.expires_at);
        text.append("\n");
        push_decimal(&mut text, self.access_token.as_str().unicode_len() as u64);
        text.append("\n");
        text.append(self.access_token.as_str());
        text.append(self.refresh_token.as_str());
        assert(text@ =~= encoding(self@));
        text
    }

    /// Reads a token from the text of a cache file. A text that is not the
    /// text of any token gives `None`.
    pub fn decode(text: &str) -> (token: Option<Token>)
        ensures
            match token {
                Some(token) => Some(token@) == decoding(text@),
                None => decoding(text@) is None,
            },
    {
        let length = text.unicode_len();
        let first = match find_break(text, 0, length) {
            Some(first) => first,
            None => {
                proof {
                    assert forall|token: TokenView| encoding(token) != text@ by {
                        lemma_encoding_layout(token);
                    }
                }
                return None;
            },
        };
        let second = match find_break(text, first + 1, length) {
            Some(second) => second,
            None => {
                proof {
                    assert forall|token: TokenView| encoding(token) != text@ by {
                        lemma_encoding_layout(token);
                        if encoding(token) == text@ {
                            let expiry = decimal(token.expires_at as nat).len() as int;
                            assert(text@[expiry] == '\n');
                            assert(expiry == first);
                            assert(text@[first + 1 + decimal(token.access_token.len()).len()]
                                == '\n');
                        }
                    }
                }
                return None;
            },
        };
        let expires_at = read_numeral(text, 0, first);
        let size = read_numeral(text, first + 1, second);
        proof {
            // Whatever token the text is of, its numerals end at these breaks.
            assert forall|token: TokenView| encoding(token) == text@ implies {
                &&& numeral_value(text@.subrange(0, first as int)) == Some(token.expires_at)
                &&& numeral_value(text@.subrange(first + 1, second as int)) == Some(
                    token.access_token.len() as u64,
                )
                &&& second + 1 + token.access_token.len() <= length
            } by {
                lemma_encoding_layout(token);
                let expiry = decimal(token.expires_at as nat).len() as int;
                assert(text@[expiry] == '\n');
                assert(expiry == first);
                let body = first + 1 + decimal(token.access_token.len()).len();
                assert(text@[body] == '\n');
                assert(body == second);
            }
        }
        match (expires_at, size) {
            (Some(expires_at), Some(size)) => {
                if size > (length - second - 1) as u64 {
                    return None;
                }
                let start = second + 1;
                let middle = start + size as usize;
                let access_token = String::from_str(text.substring_char(start, middle));
                let refresh_token = String::from_str(text.substring_char(middle, length));
                let token = Token { access_token, refresh_token, expires_at };
                proof {
                    lemma_numeral_is_decimal(text@.subrange(0, first as int));
                    lemma_numeral_is_decimal(text@.subrange(first + 1, second as int));
                    assert(encoding(token@) =~= text@);
                    lemma_saved_token_loads(token@);
                }
                Some(token)
            },
            _ => None,
        }
    }
}

/// Why the remote service did not do what it was asked.
#[derive(Clone, Copy, Debug, PartialEq, Eq, Structural)]
pub enum RemoteFailure {
    /// The service does not accept the credential it was shown.
    CredentialRejected,
    /// The service could not be reached, or broke off.
    TransientNetwork,
    /// The service was asked too often.
    RateLimited,
}

/// What an answer with the HTTP status `status` tells of a call that did
/// not succeed: 400, 401 and 403 are the service's words for a credential
/// that it does not accept, and 429 for too many calls; any other status is
/// taken for trouble that passes.
pub open spec fn status_failure(status: u16) -> RemoteFailure {
    if status == 400 || status == 401 || status == 403 {
        RemoteFailure::CredentialRejected
    } else if status == 429 {
        RemoteFailure::RateLimited
    } else {
        RemoteFailure::TransientNetwork
    }
}

impl RemoteFailure {
    /// The failure that the HTTP status of an unsuccessful answer stands
    /// for.
    pub fn of_status(status: u16) -> (failure: RemoteFailure)
        ensures
            failure == status_failure(status),
    {
        if status == 400 || status == 401 || status == 403 {
            RemoteFailure::CredentialRejected
        } else if status == 429 {
            RemoteFailure::RateLimited
        } else {
            RemoteFailure::TransientNetwork
        }
    }
}

/// The keeper of the token that is in use.
#[derive(Debug, PartialEq, Eq)]
pub struct TokenStore {
    /// The token that is held in memory, if one is.
    pub current: Option<Token>,
}

/// A token, if there is one, by what it holds.
pub open spec fn held(token: Option<Token>) -> Option<TokenView> {
    match token {
        Some(token) => Some(token@),
        None => None,
    }
}

impl View for TokenStore {
    type V = Option<TokenView>;

    open spec fn view(&self) -> Option<TokenView> {
        held(self.current)
    }
}

/// What loads from a cache file: nothing where the file is absent or cannot
/// be read, and nothing where what it holds is not the text of a token.
pub open spec fn loading(contents: Option<Seq<char>>) -> Option<TokenView> {
    match contents {
        Some(text) => decoding(text),
        None => None,
    }
}

impl TokenStore {
    /// A store that holds no token.
    pub fn new() -> (store: TokenStore)
        ensures
            store@ is None,
    {
        TokenStore { current: None }
    }

    /// Takes up the token that the cache file holds. `contents` is what was
    /// read from the file, and `None` where the file is absent or cannot be
    /// read. No failure is fatal here: without a token to take up, the store
    /// holds none.
    pub fn load(&mut self, contents: Option<&str>) -> (loaded: Option<Token>)
        ensures
            held(loaded) == loading(
                match contents {
                    Some(text) => Some(text@),
                    None => None,
                },
            ),
            final(self).current == loaded,
    {
        let loaded = match contents {
            Some(text) => Token::decode(text),
            None => None,
        };
        self.current = match &loaded {
            Some(token) => Some(token.clone()),
            None => None,
        };
        loaded
    }

    /// Takes up `token` and hands out the text that the cache file is to
    /// hold from now on.
    pub fn save(&mut self, token: Token) -> (contents: String)
        ensures
            contents@ == encoding(token@),
            final(self).current == Some(token),
    {
        let contents = token.encode();
        self.current = Some(token);
        contents
    }

    /// Lets go of the token that is held, so that the next one has to come
    /// from a new authorization.
    pub fn invalidate(&mut self)
        ensures
            final(self).current is None,
    {
        self.current = None;
    }
}

} // verus!
