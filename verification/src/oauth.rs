//! Logging in with Discord: the requests that exchange a code or a refresh
//! token for a bearer token, and the check that the bearer token grants what
//! the service needs.

use vstd::prelude::*;
use vstd::string::StrSliceExecFns;
use vstd::string::StringExecFns;
use std::marker::PhantomData;
use crate::constants::DISCORD_APP_ID;
use crate::text::spells;

verus! {

/// Where Discord sends a user back to after the login.
pub const DISCORD_REDIRECT_URI: &'static str = "https://localhost:8080/discord";

/// Root of Discord's HTTP API.
pub const DISCORD_API_ENDPOINT: &'static str = "https://discordapp.com/api/v6";

/// Most bytes that are read of a request that carries a token.
pub const LIMIT: u64 = 256;

/// Why an exchange gave no bearer token.
#[derive(Debug, Clone, Copy, PartialEq, Eq, Structural)]
pub enum ExchangeError {
    BadCount,
    Missing,
    /// Discord refused the exchange.
    Rejected,
    /// Discord could not be reached, or its answer could not be read.
    ReqwestError,
    /// The request could not be read.
    SerializationError,
    /// The bearer token does not grant all that the service needs.
    MissingScope,
}

/// What Discord hands out for a code or a refresh token.
#[derive(Debug, Clone, PartialEq, Eq)]
pub struct Bearer {
    pub access_token: String,
    pub token_type: String,
    pub expires_in: u64,
    pub refresh_token: String,
    /// The granted scopes, with a blank between one and the next.
    pub scope: String,
}

/// A token as a client sends it. `T` says of which kind it is.
#[derive(Debug, PartialEq, Eq)]
pub struct DiscordToken<T> {
    pub token: String,
    pub phantom: PhantomData<T>,
}

/// Marks the token as a code from the login.
#[derive(Debug, Clone, Copy, PartialEq, Eq)]
pub struct AccessCode;

/// Marks the token as a bearer token.
#[derive(Debug, Clone, Copy, PartialEq, Eq)]
pub struct BearerToken;

/// Marks the token as a refresh token.
#[derive(Debug, Clone, Copy, PartialEq, Eq)]
pub struct RefreshToken;

/// The form that asks Discord for a new bearer token.
#[derive(Debug, Clone, PartialEq, Eq)]
pub struct RefreshRequest {
    pub client_id: u64,
    pub client_secret: String,
    pub refresh_token: String,
    pub grant_type: String,
    pub redirect_uri: String,
    pub scope: String,
}

/// The form that asks Discord for the bearer token that belongs to a code.
#[derive(Debug, Clone, PartialEq, Eq)]
pub struct ExchangeRequest {
    pub client_id: u64,
    pub client_secret: String,
    pub code: String,
    pub grant_type: String,
    pub redirect_uri: String,
}

impl<T> DiscordToken<T> {
    /// A token of kind `T`.
    pub fn new(token: String) -> (t: Self)
        ensures
            t.token@ == token@,
    {
        DiscordToken { token, phantom: PhantomData }
    }
}

/// The scopes the service needs, as they are asked for: `identify` and
/// `guilds` with a blank between them.
pub open spec fn required_scope_list() -> Seq<char> {
    "identify"@ + " "@ + "guilds"@
}

/// Writes down the scopes the service needs.
pub fn required_scopes() -> (scope: String)
    ensures
        scope@ == required_scope_list(),
{
    let mut scope = String::from_str("identify");
    scope.append(" ");
    scope.append("guilds");
    scope
}

impl RefreshRequest {
    /// The form for `refresh_token`, signed with the application's secret.
    pub fn new(client_secret: String, refresh_token: String) -> (form: Self)
        ensures
            form.client_id == DISCORD_APP_ID,
            form.client_secret@ == client_secret@,
            form.refresh_token@ == refresh_token@,
            form.grant_type@ == "refresh_token"@,
            form.redirect_uri@ == DISCORD_REDIRECT_URI@,
            form.scope@ == required_scope_list(),
    {
        RefreshRequest {
            client_id: DISCORD_APP_ID,
            client_secret,
            refresh_token,
            grant_type: String::from_str("refresh_token"),
            redirect_uri: String::from_str(DISCORD_REDIRECT_URI),
            scope: required_scopes(),
        }
    }
}

impl ExchangeRequest {
    /// The form for `code`, signed with the application's secret.
    pub fn new(client_secret: String, code: String) -> (form: Self)
        ensures
            form.client_id == DISCORD_APP_ID,
            form.client_secret@ == client_secret@,
            form.code@ == code@,
            form.grant_type@ == "authorization_code"@,
            form.redirect_uri@ == DISCORD_REDIRECT_URI@,
    {
        ExchangeRequest {
            client_id: DISCORD_APP_ID,
            client_secret,
            code,
            grant_type: String::from_str("authorization_code"),
            redirect_uri: String::from_str(DISCORD_REDIRECT_URI),
        }
    }
}

/// The characters `from..to` of `text` are one of the pieces it falls into
/// when it is cut at every blank: a blank or an end of the text on either
/// side, and no blank within.
pub open spec fn is_piece(text: Seq<char>, from: int, to: int) -> bool {
    &&& 0 <= from <= to <= text.len()
    &&& (from == 0 || text[from - 1] == ' ')
    &&& (to == text.len() || text[to] == ' ')
    &&& forall|k: int| from <= k < to ==> text[k] != ' '
}

/// `scope` is among the scopes that `granted` lists, blanks between them.
pub open spec fn grants(granted: Seq<char>, scope: Seq<char>) -> bool {
    exists|from: int, to: int|
        #[trigger] is_piece(granted, from, to) && granted.subrange(from, to) == scope
}

/// A piece that ends where the piece `start..to` ends is that piece.
proof fn lemma_piece_begins_once(text: Seq<char>, start: int, from: int, to: int)
    requires
        is_piece(text, start, to),
        is_piece(text, from, to),
    ensures
        from == start,
{
    if from < start {
        assert(text[start - 1] == ' ');
    } else if from > start {
        assert(text[from - 1] == ' ');
    }
}

/// Says whether `scope` is among the scopes that `granted` lists.
pub fn has_scope(granted: &str, scope: &str) -> (found: bool)
    ensures
        found <==> grants(granted@, scope@),
{
    let n = granted.unicode_len();
    let mut start: usize = 0;
    let mut i: usize = 0;
    while i < n
        invariant
            n == granted@.len(),
            start <= i <= n,
            start == 0 || granted@[start - 1] == ' ',
            forall|k: int| start <= k < i ==> granted@[k] != ' ',
            forall|from: int, to: int|
                #[trigger] is_piece(granted@, from, to) && to < start ==> granted@.subrange(
                    from,
                    to,
                ) != scope@,
        decreases n - i,
    {
        if granted.get_char(i) == ' ' {
            assert(is_piece(granted@, start as int, i as int));
            if spells(granted, start, i, scope) {
                return true;
            }
            assert forall|from: int, to: int|
                #[trigger] is_piece(granted@, from, to) && to < i + 1 implies granted@.subrange(
                from,
                to,
            ) != scope@ by {
                if to >= start {
                    if to < i {
                        assert(granted@[to] != ' ');
                    } else {
                        lemma_piece_begins_once(granted@, start as int, from, to);
                    }
                }
            }
            start = i + 1;
        }
        i = i + 1;
    }
    assert(is_piece(granted@, start as int, n as int));
    let last = spells(granted, start, n, scope);
    proof {
        if !last {
            assert forall|from: int, to: int| #[trigger]
                is_piece(granted@, from, to) implies granted@.subrange(from, to) != scope@ by {
                if to >= start {
                    if to < n {
                        assert(granted@[to] != ' ');
                    } else {
                        lemma_piece_begins_once(granted@, start as int, from, to);
                    }
                }
            }
        }
    }
    last
}

/// `granted` lists every scope the service needs.
pub open spec fn grants_required(granted: Seq<char>) -> bool {
    grants(granted, "identify"@) && grants(granted, "guilds"@)
}

/// What an exchange comes to once Discord has answered. `answer` is the
/// bearer token of an answer with a status of success, and nothing for any
/// other answer. An exchange without a bearer token was refused; one whose
/// bearer token does not grant all that is needed is short of a scope; any
/// other gives its bearer token.
pub fn exchanged(answer: Option<Bearer>) -> (res: Result<Bearer, ExchangeError>)
    ensures
        match answer {
            None => res == Err::<Bearer, ExchangeError>(ExchangeError::Rejected),
            Some(bearer) => res == if grants_required(bearer.scope@) {
                Ok::<Bearer, ExchangeError>(bearer)
            } else {
                Err::<Bearer, ExchangeError>(ExchangeError::MissingScope)
            },
        },
{
    match answer {
        None => Err(ExchangeError::Rejected),
        Some(bearer) => {
            if !has_scope(bearer.scope.as_str(), "identify") {
                Err(ExchangeError::MissingScope)
            } else if !has_scope(bearer.scope.as_str(), "guilds") {
                Err(ExchangeError::MissingScope)
            } else {
                Ok(bearer)
            }
        },
    }
}

} // verus!
