//! The rules of the HTTP service: who may ask for or change a whitelist
//! entry, and with which status a request is answered.
//!
//! The service talks to Discord and to the database. None of that happens
//! here: each function takes what one such step came to and says what
//! follows.

use vstd::prelude::*;
use vstd::string::StringExecFns;
use uuid::Uuid;
use crate::events::contains_id;
use crate::models::{as_unsigned, to_unsigned, MCStatus, MinecraftUser, NewMinecraftUser};

verus! {

/// HTTP status of a request that was carried out.
pub const OK: u16 = 200;

/// HTTP status of a request that cannot be read.
pub const BAD_REQUEST: u16 = 400;

/// HTTP status of a request from someone who may not make it.
pub const FORBIDDEN: u16 = 403;

/// HTTP status of a request for something that is not there.
pub const NOT_FOUND: u16 = 404;

/// HTTP status of a request that failed on the server's side.
pub const INTERNAL_SERVER_ERROR: u16 = 500;

/// The UUID that `text` spells, written as thirty-two lower-case
/// hexadecimal digits in a row; nothing where `text` spells no UUID.
pub uninterp spec fn uuid_simple(text: Seq<char>) -> Option<Seq<char>>;

/// The UUID that `text` spells, written in lower case in five groups with
/// hyphens between them; nothing where `text` spells no UUID.
pub uninterp spec fn uuid_hyphenated(text: Seq<char>) -> Option<Seq<char>>;

/// `Uuid::parse_str` reads `text`, and `to_simple` with `encode_lower`
/// write the UUID out again. The result is a function of `text` alone; it
/// is named, not described.
#[verifier::external_body]
fn parse_to_simple(text: &str) -> (out: Option<String>)
    ensures
        match out {
            Some(simple) => uuid_simple(text@) == Some(simple@),
            None => uuid_simple(text@) is None,
        },
{
    match Uuid::parse_str(text) {
        Ok(id) => Some(id.to_simple().encode_lower(&mut Uuid::encode_buffer()).to_owned()),
        Err(_) => None,
    }
}

/// `Uuid::parse_str` reads `text`, and `to_hyphenated` with `encode_lower`
/// write the UUID out again. The result is a function of `text` alone; it
/// is named, not described.
#[verifier::external_body]
fn parse_to_hyphenated(text: &str) -> (out: Option<String>)
    ensures
        match out {
            Some(hyphenated) => uuid_hyphenated(text@) == Some(hyphenated@),
            None => uuid_hyphenated(text@) is None,
        },
{
    match Uuid::parse_str(text) {
        Ok(id) => Some(id.to_hyphenated().encode_lower(&mut Uuid::encode_buffer()).to_owned()),
        Err(_) => None,
    }
}

/// Says whether the one who asks is a member of `guild`. `guilds` holds
/// the guilds Discord listed for them, or nothing where Discord would not
/// say; then they count as no member.
pub fn is_member(guilds: Option<&Vec<u64>>, guild: u64) -> (member: bool)
    ensures
        member <==> (guilds matches Some(ids) && ids@.contains(guild)),
{
    match guilds {
        Some(ids) => contains_id(ids, guild),
        None => false,
    }
}

/// Decides whether the one who asks is served. `user` is their id, or
/// nothing where Discord would not say who holds the token; `guilds` holds
/// the guilds Discord listed for them, or nothing where it would not list
/// them. Only a member of `guild` is served; anyone else is forbidden.
pub fn member_or_forbidden(user: Option<u64>, guilds: Option<&Vec<u64>>, guild: u64) -> (res:
    Result<u64, u16>)
    ensures
        res is Ok <==> (user is Some && (guilds matches Some(ids) && ids@.contains(guild))),
        res matches Ok(id) ==> user == Some(id),
        res is Err ==> res == Err::<u64, u16>(FORBIDDEN),
{
    match user {
        Some(id) => if is_member(guilds, guild) {
            Ok(id)
        } else {
            Err(FORBIDDEN)
        },
        None => Err(FORBIDDEN),
    }
}

/// The UUID a status shows for a stored one: hyphenated where the stored
/// text spells a UUID, as stored where it does not.
pub open spec fn shown_uuid(stored: Seq<char>, hyphenated: Option<Seq<char>>) -> Seq<char> {
    match hyphenated {
        Some(text) => text,
        None => stored,
    }
}

/// Puts the hyphenated form of its UUID into a status, where there is one.
pub fn with_hyphenated(status: MCStatus, hyphenated: Option<String>) -> (shown: MCStatus)
    ensures
        shown.status == status.status,
        shown.uuid@ == shown_uuid(
            status.uuid@,
            match hyphenated {
                Some(text) => Some(text@),
                None => None,
            },
        ),
{
    match hyphenated {
        Some(text) => MCStatus { status: status.status, uuid: text },
        None => status,
    }
}

/// What a member is told about their account: the suspension flag and the
/// UUID, hyphenated where it can be.
pub fn status_of(row: MinecraftUser) -> (shown: MCStatus)
    ensures
        shown.status == as_unsigned(row.suspended),
        shown.uuid@ == shown_uuid(row.minecraft_uuid@, uuid_hyphenated(row.minecraft_uuid@)),
{
    let hyphenated = parse_to_hyphenated(row.minecraft_uuid.as_str());
    let status = MCStatus { status: to_unsigned(row.suspended), uuid: row.minecraft_uuid };
    with_hyphenated(status, hyphenated)
}

/// Answers a member's request for the status of their account: the status
/// where they have one, and not found where they have none.
pub fn status(row: Option<MinecraftUser>) -> (reply: Result<MCStatus, u16>)
    ensures
        match row {
            Some(r) => reply matches Ok(shown) && shown.status == as_unsigned(r.suspended)
                && shown.uuid@ == shown_uuid(r.minecraft_uuid@, uuid_hyphenated(r.minecraft_uuid@)),
            None => reply == Err::<MCStatus, u16>(NOT_FOUND),
        },
{
    match row {
        Some(r) => Ok(status_of(r)),
        None => Err(NOT_FOUND),
    }
}

/// What the text of a registration's UUID comes to, given its simple form
/// where it has one: that form, or a bad request.
pub fn normalized(simple: Option<String>) -> (res: Result<String, u16>)
    ensures
        match simple {
            Some(text) => res matches Ok(uuid) && uuid@ == text@,
            None => res == Err::<String, u16>(BAD_REQUEST),
        },
{
    match simple {
        Some(text) => Ok(text),
        None => Err(BAD_REQUEST),
    }
}

/// Reads the UUID of a registration. A text that spells no UUID is a bad
/// request; any other is taken in its simple form.
pub fn register_uuid(uuid: &str) -> (res: Result<String, u16>)
    ensures
        match uuid_simple(uuid@) {
            Some(text) => res matches Ok(simple) && simple@ == text,
            None => res == Err::<String, u16>(BAD_REQUEST),
        },
{
    normalized(parse_to_simple(uuid))
}

/// What is to be done with a registration.
#[derive(Debug, Clone, PartialEq, Eq)]
pub enum Registration {
    /// The member is suspended and may change nothing.
    Deny,
    /// The member has an account: give it the new UUID.
    Update,
    /// The member has no account: store this one.
    Create(NewMinecraftUser),
}

/// Decides what to do with the registration of `uuid` by the member
/// `user`, whose row, if any, is `row`. A new account gets the name
/// `deprecated`, for names are no longer kept.
pub fn register(user: u64, uuid: &str, row: Option<&MinecraftUser>) -> (todo: Registration)
    ensures
        match row {
            Some(r) => todo == if r.suspended == 1 {
                Registration::Deny
            } else {
                Registration::Update
            },
            None => todo matches Registration::Create(account) && account.discord_id == user
                && account.minecraft_uuid@ == uuid@ && account.minecraft_name@ == "deprecated"@,
        },
{
    match row {
        Some(r) => if r.suspended == 1 {
            Registration::Deny
        } else {
            Registration::Update
        },
        None => Registration::Create(
            NewMinecraftUser {
                discord_id: user,
                minecraft_uuid: String::from_str(uuid),
                minecraft_name: String::from_str("deprecated"),
            },
        ),
    }
}

/// How a registration ends.
#[derive(Debug, Clone, Copy, PartialEq, Eq, Structural)]
pub struct Registered {
    /// The HTTP status that answers the request.
    pub code: u16,
    /// Whether the change is announced on Discord.
    pub announce: bool,
}

/// How a registration ends, given what was to be done and whether the
/// database did it: a denied one is forbidden; any other succeeds or fails
/// with the database. Only the change of an account that was there before is
/// announced, and only when it was made.
pub open spec fn outcome_of(deny: bool, update: bool, written: bool) -> Registered {
    if deny {
        Registered { code: FORBIDDEN, announce: false }
    } else if written {
        Registered { code: OK, announce: update }
    } else {
        Registered { code: INTERNAL_SERVER_ERROR, announce: false }
    }
}

/// Ends a registration. `written` says whether the database took the
/// change; of a denied registration nothing is written, whatever it says.
pub fn registered(todo: &Registration, written: bool) -> (end: Registered)
    ensures
        end == outcome_of(*todo is Deny, *todo is Update, written),
{
    match todo {
        Registration::Deny => Registered { code: FORBIDDEN, announce: false },
        Registration::Update => if written {
            Registered { code: OK, announce: true }
        } else {
            Registered { code: INTERNAL_SERVER_ERROR, announce: false }
        },
        Registration::Create(_) => if written {
            Registered { code: OK, announce: false }
        } else {
            Registered { code: INTERNAL_SERVER_ERROR, announce: false }
        },
    }
}

/// The two UUIDs of an announced change as they are shown, given their
/// hyphenated forms: both, or nothing where one of them spells no UUID.
pub fn shown_change(old: Option<String>, new: Option<String>) -> (shown: Option<(String, String)>)
    ensures
        match (old, new) {
            (Some(a), Some(b)) => shown matches Some(pair) && pair.0@ == a@ && pair.1@ == b@,
            _ => shown is None,
        },
{
    match (old, new) {
        (Some(a), Some(b)) => Some((a, b)),
        _ => None,
    }
}

/// The old and the new UUID of a changed account as they are announced:
/// both hyphenated.
pub fn announced_change(old: &str, new: &str) -> (shown: Option<(String, String)>)
    ensures
        match (uuid_hyphenated(old@), uuid_hyphenated(new@)) {
            (Some(a), Some(b)) => shown matches Some(pair) && pair.0@ == a && pair.1@ == b,
            _ => shown is None,
        },
{
    shown_change(parse_to_hyphenated(old), parse_to_hyphenated(new))
}

} // verus!
