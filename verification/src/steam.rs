//! Steam profiles: what a command's argument asks of Steam's web API, what
//! the API answers, and why the lookup of a profile can fail.

use vstd::prelude::*;
use vstd::string::StringExecFns;
use url::Url;
use crate::text::{ends_with, number_of, parse_number, same_text};

verus! {

/// Host of the Steam Community, where profiles live.
pub const STEAM_COMMUNITY: &'static str = "steamcommunity.com";

/// HTTP status for something that is not there.
pub const NOT_FOUND: u16 = 404;

/// Why no Steam profile was found for what a user wrote.
#[derive(Debug, Clone, Copy, PartialEq, Eq, Structural)]
pub enum ParseSteamIDError {
    /// The address is not that of a Steam Community profile.
    InvalidURL,
    /// Steam knows no such profile.
    NotFound,
    /// Steam answered with this HTTP status instead of a profile.
    RequestFailed(u16),
    /// The command's argument could not be read.
    SerenityParseError,
    /// The text is no address at all, or one without the parts a profile
    /// address has.
    UrlParseError,
}

/// Envelope of the answer to a request for player summaries.
#[derive(Debug, PartialEq, Eq)]
pub struct PlayerSummaryResponse {
    pub response: PlayerSummaries,
}

/// The player summaries of an answer.
#[derive(Debug, PartialEq, Eq)]
pub struct PlayerSummaries {
    pub players: Vec<PlayerSummary>,
}

/// Envelope of the answer to the resolution of a vanity name.
#[derive(Debug, PartialEq, Eq)]
pub struct ResolveVanityURLResponse {
    pub response: ResolveVanityURL,
}

/// What a vanity name resolved to.
#[derive(Debug, PartialEq, Eq)]
pub struct ResolveVanityURL {
    pub steamid: Option<String>,
    pub success: u32,
    pub message: Option<String>,
}

/// The public face of a Steam account.
#[derive(Debug, PartialEq, Eq)]
pub struct PlayerSummary {
    pub steamid: String,
    pub visibility: i8,
    pub profile_state: Option<i8>,
    pub alias: String,
    pub last_logoff: Option<u64>,
    pub profile_url: String,
    pub avatar: String,
    pub avatar_med: String,
    pub avatar_full: String,
}

impl ParseSteamIDError {
    /// The error that stands for an HTTP status other than success.
    pub fn from_status(status: u16) -> (e: ParseSteamIDError)
        ensures
            e == ParseSteamIDError::RequestFailed(status),
    {
        ParseSteamIDError::RequestFailed(status)
    }
}

/// What the parts of an address are that the profile logic reads.
#[derive(Debug, Clone, PartialEq, Eq)]
pub struct Address {
    /// The address written out in its normal form.
    pub serialization: String,
    /// The host, where the address has one.
    pub host: Option<String>,
    /// The segments of the path, where the address has a path that begins
    /// with a slash.
    pub segments: Option<Vec<String>>,
}

/// An [`Address`] as plain texts.
pub struct AddressParts {
    pub serialization: Seq<char>,
    pub host: Option<Seq<char>>,
    pub segments: Option<Seq<Seq<char>>>,
}

impl View for Address {
    type V = AddressParts;

    open spec fn view(&self) -> AddressParts {
        AddressParts {
            serialization: self.serialization@,
            host: match self.host {
                Some(host) => Some(host@),
                None => None,
            },
            segments: match self.segments {
                Some(segments) => Some(
                    Seq::new(segments@.len(), |i: int| segments@[i]@),
                ),
                None => None,
            },
        }
    }
}

/// The address that `text` spells, taken apart: its normal form, its host
/// and the segments of its path; nothing where `text` spells no absolute
/// URL.
pub uninterp spec fn address_of(text: Seq<char>) -> Option<AddressParts>;

/// `Url::parse` reads `text`; `as_str`, `host_str` and `path_segments`
/// take the URL apart. The result is a function of `text` alone; it is
/// named, not described.
#[verifier::external_body]
fn parse_address(text: &str) -> (out: Option<Address>)
    ensures
        match out {
            Some(address) => address_of(text@) == Some(address@),
            None => address_of(text@) is None,
        },
{
    match Url::parse(text) {
        Ok(url) => Some(
            Address {
                serialization: url.as_str().to_owned(),
                host: url.host_str().map(|host| host.to_owned()),
                segments: url.path_segments().map(|all| all.map(|one| one.to_owned()).collect()),
            },
        ),
        Err(_) => None,
    }
}

/// What is to be asked of Steam to find a profile.
#[derive(Debug, Clone, PartialEq, Eq)]
pub enum SteamQuery {
    /// The summary of the account with this id.
    ById(u64),
    /// The id that this vanity name resolves to, and then its summary.
    ByVanity(String),
}

/// A [`SteamQuery`] as plain values.
pub enum QueryParts {
    ById(u64),
    ByVanity(Seq<char>),
}

impl View for SteamQuery {
    type V = QueryParts;

    open spec fn view(&self) -> QueryParts {
        match self {
            SteamQuery::ById(id) => QueryParts::ById(*id),
            SteamQuery::ByVanity(name) => QueryParts::ByVanity(name@),
        }
    }
}

/// `text` with a slash at its end, put there if it had none.
pub open spec fn slashed(text: Seq<char>) -> Seq<char> {
    if text.len() > 0 && text.last() == '/' {
        text
    } else {
        text.push('/')
    }
}

/// Puts a slash at the end of `text` if it has none.
pub fn with_slash(text: String) -> (out: String)
    ensures
        out@ == slashed(text@),
{
    if ends_with(text.as_str(), '/') {
        text
    } else {
        proof {
            reveal_strlit("/");
            assert("/"@ =~= seq!['/']);
        }
        let mut out = text;
        out.append("/");
        assert(out@ =~= text@.push('/'));
        out
    }
}

/// The text by which the profile at an address is looked up, or why the
/// address is none of a profile.
///
/// A profile's address has a host and a path of three segments, the last
/// of them empty: the kind, `profiles` or `id`, and what names the
/// profile. An address without a path, with fewer than two segments,
/// without a host, or without a third segment where one is looked for, cannot
/// be read at all. One that can be read is invalid if its host is not the
/// Steam Community, if one of the first two segments is empty, if the third
/// is not, or if the kind is neither of the two. Under `id` the name is
/// looked up; under `profiles` the kind itself is.
pub open spec fn profile_text(address: AddressParts) -> Result<Seq<char>, ParseSteamIDError> {
    if address.segments is None || address.segments->0.len() < 2 || address.host is None {
        Err(ParseSteamIDError::UrlParseError)
    } else {
        let host = address.host->0;
        let segments = address.segments->0;
        if host != STEAM_COMMUNITY@ || segments[0].len() == 0 || segments[1].len() == 0 {
            Err(ParseSteamIDError::InvalidURL)
        } else if segments.len() < 3 {
            Err(ParseSteamIDError::UrlParseError)
        } else if segments[2].len() != 0 {
            Err(ParseSteamIDError::InvalidURL)
        } else if segments[0] == "profiles"@ {
            Ok(segments[0])
        } else if segments[0] == "id"@ {
            Ok(segments[1])
        } else {
            Err(ParseSteamIDError::InvalidURL)
        }
    }
}

/// Finds in an address the text by which its profile is looked up.
pub fn profile_reference(address: &Address) -> (res: Result<String, ParseSteamIDError>)
    ensures
        match res {
            Ok(text) => profile_text(address@) == Ok::<Seq<char>, ParseSteamIDError>(text@),
            Err(e) => profile_text(address@) == Err::<Seq<char>, ParseSteamIDError>(e),
        },
{
    let segments = match &address.segments {
        Some(segments) => segments,
        None => {
            return Err(ParseSteamIDError::UrlParseError);
        },
    };
    if segments.len() < 2 {
        return Err(ParseSteamIDError::UrlParseError);
    }
    let host = match &address.host {
        Some(host) => host,
        None => {
            return Err(ParseSteamIDError::UrlParseError);
        },
    };
    let kind = segments[0].as_str();
    let name = segments[1].as_str();
    proof {
        assert(address@.segments->0[0] == kind@);
        assert(address@.segments->0[1] == name@);
    }
    if !same_text(host.as_str(), STEAM_COMMUNITY) || kind.unicode_len() == 0 || name.unicode_len()
        == 0 {
        return Err(ParseSteamIDError::InvalidURL);
    }
    if segments.len() < 3 {
        return Err(ParseSteamIDError::UrlParseError);
    }
    assert(address@.segments->0[2] == segments[2]@);
    if segments[2].as_str().unicode_len() != 0 {
        return Err(ParseSteamIDError::InvalidURL);
    }
    if same_text(kind, "profiles") {
        Ok(String::from_str(kind))
    } else if same_text(kind, "id") {
        Ok(String::from_str(name))
    } else {
        Err(ParseSteamIDError::InvalidURL)
    }
}

/// What a text that names a profile asks of Steam: a number is an id,
/// anything else a vanity name.
pub open spec fn query_for(text: Seq<char>) -> QueryParts {
    match number_of(text) {
        Some(id) => QueryParts::ById(id),
        None => QueryParts::ByVanity(text),
    }
}

/// Decides what to ask of Steam for a text that names a profile.
pub fn query_by_text(text: String) -> (query: SteamQuery)
    ensures
        query@ == query_for(text@),
{
    match parse_number(text.as_str()) {
        Some(id) => SteamQuery::ById(id),
        None => SteamQuery::ByVanity(text),
    }
}

/// What the address of a profile asks of Steam, given the address read a
/// second time with a slash at its end, if it could be read then.
pub open spec fn query_at(again: Option<AddressParts>) -> Result<QueryParts, ParseSteamIDError> {
    match again {
        None => Err(ParseSteamIDError::UrlParseError),
        Some(address) => match profile_text(address) {
            Ok(text) => Ok(query_for(text)),
            Err(e) => Err(e),
        },
    }
}

/// Decides what to ask of Steam for an address that was read a second time
/// with a slash at its end.
pub fn query_by_address(again: Option<Address>) -> (res: Result<SteamQuery, ParseSteamIDError>)
    ensures
        match res {
            Ok(query) => query_at(
                match again {
                    Some(a) => Some(a@),
                    None => None,
                },
            ) == Ok::<QueryParts, ParseSteamIDError>(query@),
            Err(e) => query_at(
                match again {
                    Some(a) => Some(a@),
                    None => None,
                },
            ) == Err::<QueryParts, ParseSteamIDError>(e),
        },
{
    match again {
        None => Err(ParseSteamIDError::UrlParseError),
        Some(address) => match profile_reference(&address) {
            Ok(text) => Ok(query_by_text(text)),
            Err(e) => Err(e),
        },
    }
}

/// What a command's argument asks of Steam. A number is the id of an
/// account. An address is read, written out with a slash at its end and read
/// again, and must then be that of a profile. Any other text is a vanity
/// name.
pub open spec fn query_of(arg: Seq<char>) -> Result<QueryParts, ParseSteamIDError> {
    match number_of(arg) {
        Some(id) => Ok(QueryParts::ById(id)),
        None => match address_of(arg) {
            Some(address) => query_at(address_of(slashed(address.serialization))),
            None => Ok(QueryParts::ByVanity(arg)),
        },
    }
}

/// Decides what to ask of Steam for the argument of a command.
pub fn steam_query(arg: String) -> (res: Result<SteamQuery, ParseSteamIDError>)
    ensures
        match res {
            Ok(query) => query_of(arg@) == Ok::<QueryParts, ParseSteamIDError>(query@),
            Err(e) => query_of(arg@) == Err::<QueryParts, ParseSteamIDError>(e),
        },
{
    match parse_number(arg.as_str()) {
        Some(id) => Ok(SteamQuery::ById(id)),
        None => match parse_address(arg.as_str()) {
            Some(address) => {
                let raw = with_slash(address.serialization);
                query_by_address(parse_address(raw.as_str()))
            },
            None => Ok(SteamQuery::ByVanity(arg)),
        },
    }
}

impl PlayerSummary {
    /// What the resolution of a vanity name came to: the id it resolved
    /// to, or not found where it resolved to nothing. Steam writes ids as
    /// numbers; a caller who cannot be sure of that reads the number first.
    pub fn parse_vanity(steamid: Option<String>) -> (res: Result<u64, u16>)
        requires
            steamid matches Some(text) ==> number_of(text@) is Some,
        ensures
            match steamid {
                Some(text) => res == Ok::<u64, u16>(number_of(text@)->0),
                None => res == Err::<u64, u16>(NOT_FOUND),
            },
    {
        match steamid {
            Some(text) => match parse_number(text.as_str()) {
                Some(id) => Ok(id),
                None => Err(NOT_FOUND),
            },
            None => Err(NOT_FOUND),
        }
    }
}

/// What the resolution of a vanity name means for the lookup of a profile:
/// the id it resolved to, or that no profile was found, whatever went wrong.
pub fn resolved(id: Result<u64, u16>) -> (res: Result<u64, ParseSteamIDError>)
    ensures
        res == match id {
            Ok(id) => Ok::<u64, ParseSteamIDError>(id),
            Err(_) => Err::<u64, ParseSteamIDError>(ParseSteamIDError::NotFound),
        },
{
    match id {
        Ok(id) => Ok(id),
        Err(_) => Err(ParseSteamIDError::NotFound),
    }
}

/// Picks the summary out of Steam's answer about one account: the first
/// of the answer, or not found where the answer is empty.
pub fn first_summary(answer: PlayerSummaryResponse) -> (res: Result<
    PlayerSummary,
    ParseSteamIDError,
>)
    ensures
        match res {
            Ok(summary) => answer.response.players@.len() > 0 && summary
                == answer.response.players@[0],
            Err(e) => answer.response.players@.len() == 0 && e == ParseSteamIDError::NotFound,
        },
{
    let mut players = answer.response.players;
    if players.len() == 0 {
        Err(ParseSteamIDError::NotFound)
    } else {
        Ok(players.remove(0))
    }
}

} // verus!
