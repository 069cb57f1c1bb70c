//! What the chat commands share: the kinds of account, how a lookup in
//! the database can end, and the checks that a command makes of the users it
//! is about.
//!
//! A check talks to Discord and to the database. None of that happens
//! here: a check is a small machine that is told what each step came to and
//! says what is to be done next. Whoever runs it does what it says and
//! reports back.

use vstd::prelude::*;
use crate::config::Discord;

verus! {

/// The kind of account a command is about.
#[derive(Debug, Clone, Copy, PartialEq, Eq, Structural)]
pub enum Account {
    All,
    Mojang,
    Steam,
}

/// Why the lookup of a row by its key gave no row.
#[derive(Debug, Clone, Copy, PartialEq, Eq, Structural)]
pub enum FindError {
    /// The table holds no row with that key.
    NotFound,
    /// The database could not be asked, or its answer could not be read.
    Other,
}

/// What the lookup of a row came to, the row itself left aside: nothing
/// where a row was found, the error where none was.
#[derive(Debug, Clone, Copy, PartialEq, Eq, Structural)]
pub struct DieselFind(pub Option<FindError>);

impl DieselFind {
    /// What `res` is with its row left aside.
    pub open spec fn of<D>(res: Result<D, FindError>) -> DieselFind {
        match res {
            Ok(_) => DieselFind(None),
            Err(e) => DieselFind(Some(e)),
        }
    }

    /// Leaves the row of a lookup aside and keeps how it ended.
    pub fn from_result<D>(res: Result<D, FindError>) -> (find: DieselFind)
        ensures
            find == DieselFind::of(res),
    {
        match res {
            Ok(_) => DieselFind(None),
            Err(e) => DieselFind(Some(e)),
        }
    }
}

/// Why a user may not link an account.
#[derive(Debug, Clone, Copy, PartialEq, Eq, Structural)]
pub enum CheckDenied {
    /// The command came in a direct message, where no one is a member.
    FromDirectMessage,
    /// No connection to the database could be had.
    NoConnection,
    /// Steam accounts are no longer linked.
    SteamUnsupported,
    /// The check was asked about all kinds of account at once.
    InvalidAccount,
    /// The user with this id has linked an account already.
    AlreadyWhitelisted(u64),
    /// The lookup of the user failed.
    Unexpected,
}

/// Where the check of a command's sender stands: what it needs next, or
/// what it came to.
#[derive(Debug, Clone, Copy, PartialEq, Eq, Structural)]
pub enum SenderCheck {
    /// Nothing is known yet: the sender is to be read off the command.
    Start,
    /// A connection to the database is needed.
    Connect { author: u64 },
    /// The row of `author` is to be looked up.
    Find { author: u64 },
    /// The check is over: the sender may link an account.
    Allowed,
    /// The check is over: the sender may not link an account.
    Denied(CheckDenied),
}

/// What the check of a sender is told.
#[derive(Debug, Clone, Copy, PartialEq, Eq, Structural)]
pub enum SenderEvent {
    /// The command was read: `member` is the sender's id where the command
    /// came from a guild.
    Asked { member: Option<u64> },
    /// A connection was asked for, and had or not.
    Connected { connected: bool },
    /// The sender's row was looked up.
    Found { find: DieselFind },
}

/// Where the check of a sender stands after an event.
///
/// A member of a guild is checked further; a command without a member came
/// in a direct message. Without a connection the check ends; with one, only
/// a Minecraft account is looked up. Of those looked up, only one who has no
/// row may link. An event that the check does not wait for changes nothing.
pub open spec fn sender_check_next(
    account: Account,
    state: SenderCheck,
    event: SenderEvent,
) -> SenderCheck {
    match (state, event) {
        (SenderCheck::Start, SenderEvent::Asked { member: Some(author) }) => SenderCheck::Connect {
            author,
        },
        (SenderCheck::Start, SenderEvent::Asked { member: None }) => SenderCheck::Denied(
            CheckDenied::FromDirectMessage,
        ),
        (SenderCheck::Connect { author }, SenderEvent::Connected { connected }) => if !connected {
            SenderCheck::Denied(CheckDenied::NoConnection)
        } else {
            match account {
                Account::Mojang => SenderCheck::Find { author },
                Account::Steam => SenderCheck::Denied(CheckDenied::SteamUnsupported),
                Account::All => SenderCheck::Denied(CheckDenied::InvalidAccount),
            }
        },
        (SenderCheck::Find { author }, SenderEvent::Found { find }) => match find.0 {
            None => SenderCheck::Denied(CheckDenied::AlreadyWhitelisted(author)),
            Some(FindError::NotFound) => SenderCheck::Allowed,
            Some(FindError::Other) => SenderCheck::Denied(CheckDenied::Unexpected),
        },
        _ => state,
    }
}

/// Takes the check that the sender of a command has not linked an account
/// yet one step further.
pub fn check_sender_not_whitelisted(
    account: Account,
    state: SenderCheck,
    event: SenderEvent,
) -> (next: SenderCheck)
    ensures
        next == sender_check_next(account, state, event),
{
    match (state, event) {
        (SenderCheck::Start, SenderEvent::Asked { member: Some(author) }) => SenderCheck::Connect {
            author,
        },
        (SenderCheck::Start, SenderEvent::Asked { member: None }) => SenderCheck::Denied(
            CheckDenied::FromDirectMessage,
        ),
        (SenderCheck::Connect { author }, SenderEvent::Connected { connected }) => if !connected {
            SenderCheck::Denied(CheckDenied::NoConnection)
        } else {
            match account {
                Account::Mojang => SenderCheck::Find { author },
                Account::Steam => SenderCheck::Denied(CheckDenied::SteamUnsupported),
                Account::All => SenderCheck::Denied(CheckDenied::InvalidAccount),
            }
        },
        (SenderCheck::Find { author }, SenderEvent::Found { find }) => match find.0 {
            None => SenderCheck::Denied(CheckDenied::AlreadyWhitelisted(author)),
            Some(FindError::NotFound) => SenderCheck::Allowed,
            Some(FindError::Other) => SenderCheck::Denied(CheckDenied::Unexpected),
        },
        (state, _) => state,
    }
}

/// Where the check of a sender stands after the events `events`, told in
/// order to a check that began at `Start`.
pub open spec fn sender_check_run(account: Account, events: Seq<SenderEvent>) -> SenderCheck
    decreases events.len(),
{
    if events.len() == 0 {
        SenderCheck::Start
    } else {
        sender_check_next(account, sender_check_run(account, events.drop_last()), events.last())
    }
}

/// A sender is allowed to link only after the database was reached and had
/// no row of theirs, and only a Minecraft account. Once the check is over,
/// nothing it is told changes what it came to.
pub proof fn lemma_allowed_only_without_row(account: Account, events: Seq<SenderEvent>)
    ensures
        sender_check_run(account, events) == SenderCheck::Allowed ==> account == Account::Mojang
            && events.contains(SenderEvent::Connected { connected: true }) && events.contains(
            SenderEvent::Found { find: DieselFind(Some(FindError::NotFound)) },
        ),
        forall|event: SenderEvent|
            #![trigger sender_check_next(account, SenderCheck::Allowed, event)]
            sender_check_next(account, SenderCheck::Allowed, event) == SenderCheck::Allowed,
        forall|why: CheckDenied, event: SenderEvent|
            #![trigger sender_check_next(account, SenderCheck::Denied(why), event)]
            sender_check_next(account, SenderCheck::Denied(why), event) == SenderCheck::Denied(why),
    decreases events.len(),
{
    if events.len() > 0 {
        let before = events.drop_last();
        let last = events.last();
        lemma_allowed_only_without_row(account, before);
        lemma_find_only_when_connected(account, before);
        assert(events[events.len() - 1] == last);
        assert forall|e: SenderEvent| before.contains(e) implies events.contains(e) by {
            let i = choose|i: int| 0 <= i < before.len() && before[i] == e;
            assert(events[i] == e);
        }
    }
}

/// The sender's row is looked up only after a connection was had, and only
/// for a Minecraft account.
pub proof fn lemma_find_only_when_connected(account: Account, events: Seq<SenderEvent>)
    ensures
        sender_check_run(account, events) is Find ==> account == Account::Mojang
            && events.contains(SenderEvent::Connected { connected: true }),
    decreases events.len(),
{
    if events.len() > 0 {
        let before = events.drop_last();
        lemma_find_only_when_connected(account, before);
        assert(events[events.len() - 1] == events.last());
        assert forall|e: SenderEvent| before.contains(e) implies events.contains(e) by {
            let i = choose|i: int| 0 <= i < before.len() && before[i] == e;
            assert(events[i] == e);
        }
    }
}

/// Why a command about another user is not carried out.
#[derive(Debug, Clone, Copy, PartialEq, Eq, Structural)]
pub enum ArgDenied {
    /// No connection to the database could be had.
    NoConnection,
    /// Steam accounts are no longer linked.
    SteamRemoved,
    /// The check was asked about all kinds of account at once.
    InvalidAccount,
    /// The user has linked no account.
    NotWhitelisted,
}

/// Where the check of a user whom a command names stands: what it needs
/// next, or what it came to.
#[derive(Debug, Clone, Copy, PartialEq, Eq, Structural)]
pub enum ArgCheck {
    /// A connection to the database is needed. The check begins here.
    Connect { user: u64 },
    /// The row of `user` is to be looked up.
    Find { user: u64 },
    /// The check is over: the user has linked an account.
    Whitelisted,
    /// The check is over: the command is not carried out.
    Denied(ArgDenied),
}

/// What the check of a named user is told.
#[derive(Debug, Clone, Copy, PartialEq, Eq, Structural)]
pub enum ArgEvent {
    /// A connection was asked for, and had or not.
    Connected { connected: bool },
    /// The user's row was looked up.
    Found { find: DieselFind },
}

/// Where the check of a named user stands after an event.
///
/// Without a connection the check ends; with one, only a Minecraft account
/// is looked up. The user is whitelisted exactly when a row was found: a
/// lookup that failed counts as no row. An event that the check does not
/// wait for changes nothing.
pub open spec fn arg_check_next(account: Account, state: ArgCheck, event: ArgEvent) -> ArgCheck {
    match (state, event) {
        (ArgCheck::Connect { user }, ArgEvent::Connected { connected }) => if !connected {
            ArgCheck::Denied(ArgDenied::NoConnection)
        } else {
            match account {
                Account::Mojang => ArgCheck::Find { user },
                Account::Steam => ArgCheck::Denied(ArgDenied::SteamRemoved),
                Account::All => ArgCheck::Denied(ArgDenied::InvalidAccount),
            }
        },
        (ArgCheck::Find { user }, ArgEvent::Found { find }) => match find.0 {
            None => ArgCheck::Whitelisted,
            Some(_) => ArgCheck::Denied(ArgDenied::NotWhitelisted),
        },
        _ => state,
    }
}

/// Takes the check that the user a command names has linked an account one
/// step further.
pub fn check_arg_whitelisted(account: Account, state: ArgCheck, event: ArgEvent) -> (next:
    ArgCheck)
    ensures
        next == arg_check_next(account, state, event),
{
    match (state, event) {
        (ArgCheck::Connect { user }, ArgEvent::Connected { connected }) => if !connected {
            ArgCheck::Denied(ArgDenied::NoConnection)
        } else {
            match account {
                Account::Mojang => ArgCheck::Find { user },
                Account::Steam => ArgCheck::Denied(ArgDenied::SteamRemoved),
                Account::All => ArgCheck::Denied(ArgDenied::InvalidAccount),
            }
        },
        (ArgCheck::Find { user }, ArgEvent::Found { find }) => match find.0 {
            None => ArgCheck::Whitelisted,
            Some(_) => ArgCheck::Denied(ArgDenied::NotWhitelisted),
        },
        (state, _) => state,
    }
}

/// Says whether a message was written in the channel that is configured
/// for whitelist commands.
pub fn is_whitelist_channel(config: &Discord, channel_id: u64) -> (ok: bool)
    ensures
        ok <==> config.channel_id == channel_id,
{
    config.channel_id == channel_id
}

} // verus!
