//! The command that links a Minecraft account, as a machine.
//!
//! Linking asks the quota, checks the sender, looks the name up at the
//! upstream identity API and stores the account. None of that happens
//! here: the machine is told what each step came to and says what is to be
//! done next. It never asks the upstream API before the quota has admitted
//! the request, and what the quota said to a request that it did not admit
//! is what the sender is told.

use vstd::prelude::*;
use crate::models::NewMinecraftUser;
use crate::mojang::MinecraftUser;
use crate::ratelimiter::{Admission, RatelimiterError};

verus! {

/// What the bot answers to the command.
#[derive(Debug, Clone, Copy, PartialEq, Eq, Structural)]
pub enum LinkReply {
    /// The command's argument is no text.
    InvalidName,
    /// The quota rejected the request: its window is used up and rolls over
    /// after `retry_after` nanoseconds. The sender may try again then.
    OverQuota { retry_after: u64 },
    /// The quota could not be asked. Where the state that all callers share
    /// is missing, this is a general failure, and trying again does not help.
    QuotaFailed(RatelimiterError),
    /// The sender may not link an account.
    Refused,
    /// The upstream API answered with this HTTP status.
    LookupFailed(u16),
    /// No player has the name.
    UnknownName,
    /// The account is linked.
    Linked,
    /// The account could not be stored.
    StoreFailed,
}

/// What the lookup of a name at the upstream API came to.
#[derive(Debug, Clone, Copy, PartialEq, Eq, Structural)]
pub enum Lookup {
    /// The API answered with this HTTP status instead of profiles.
    Failed(u16),
    /// The API answered with no profile: no player has the name.
    Empty,
    /// The API answered with a profile.
    Found,
}

/// Where the command stands: what is to be done next, or how it ended.
#[derive(Debug, Clone, Copy, PartialEq, Eq, Structural)]
pub enum LinkState {
    /// The command has just come in.
    Start,
    /// The quota is to be asked for admission.
    AskQuota,
    /// The sender is to be checked for an account linked earlier.
    CheckSender,
    /// The name is to be looked up at the upstream API.
    Lookup,
    /// The account that was found is to be stored.
    Store,
    /// The sender is to be answered; the command is over.
    Reply(LinkReply),
    /// The command is given up without an answer: it came in a direct
    /// message.
    Abort,
}

/// What the command is told.
#[derive(Debug, Clone, Copy, PartialEq, Eq)]
pub enum LinkEvent {
    /// The command was read; `has_name` says whether its argument is a text.
    Invoked { has_name: bool },
    /// The quota was asked, and this is what it said.
    QuotaAsked { answer: Result<Admission, RatelimiterError> },
    /// The sender was checked.
    SenderChecked { allowed: bool },
    /// The name was looked up; `member` says whether the command came from
    /// a member of a guild.
    LookedUp { found: Lookup, member: bool },
    /// The account was handed to the database.
    Stored { stored: bool },
}

/// Where the command stands after an event.
///
/// A command without a name is answered at once. A request that the quota
/// rejected is answered with the waiting time that the quota named, and one
/// for which the quota could not be asked with the error it met; neither is
/// mistaken for a sender who may not link. The sender is checked only once
/// the quota has admitted the request, so that a refused request costs no
/// lookup in the database; the name is looked up only once the sender is
/// allowed. A lookup that failed or found no one is answered; a
/// profile that was found for someone who is no member ends the command. An
/// event that the command does not wait for changes nothing.
pub open spec fn next(state: LinkState, event: LinkEvent) -> LinkState {
    match (state, event) {
        (LinkState::Start, LinkEvent::Invoked { has_name }) => if has_name {
            LinkState::AskQuota
        } else {
            LinkState::Reply(LinkReply::InvalidName)
        },
        (LinkState::AskQuota, LinkEvent::QuotaAsked { answer }) => match answer {
            Ok(Admission::Admitted) => LinkState::CheckSender,
            Ok(Admission::Rejected { retry_after }) => LinkState::Reply(
                LinkReply::OverQuota { retry_after },
            ),
            Err(e) => LinkState::Reply(LinkReply::QuotaFailed(e)),
        },
        (LinkState::CheckSender, LinkEvent::SenderChecked { allowed }) => if allowed {
            LinkState::Lookup
        } else {
            LinkState::Reply(LinkReply::Refused)
        },
        (LinkState::Lookup, LinkEvent::LookedUp { found, member }) => match found {
            Lookup::Failed(status) => LinkState::Reply(LinkReply::LookupFailed(status)),
            Lookup::Empty => LinkState::Reply(LinkReply::UnknownName),
            Lookup::Found => if member {
                LinkState::Store
            } else {
                LinkState::Abort
            },
        },
        (LinkState::Store, LinkEvent::Stored { stored }) => if stored {
            LinkState::Reply(LinkReply::Linked)
        } else {
            LinkState::Reply(LinkReply::StoreFailed)
        },
        _ => state,
    }
}

/// Takes the command one step further.
pub fn run(state: LinkState, event: LinkEvent) -> (then: LinkState)
    ensures
        then == next(state, event),
{
    match (state, event) {
        (LinkState::Start, LinkEvent::Invoked { has_name }) => if has_name {
            LinkState::AskQuota
        } else {
            LinkState::Reply(LinkReply::InvalidName)
        },
        (LinkState::AskQuota, LinkEvent::QuotaAsked { answer }) => match answer {
            Ok(Admission::Admitted) => LinkState::CheckSender,
            Ok(Admission::Rejected { retry_after }) => LinkState::Reply(
                LinkReply::OverQuota { retry_after },
            ),
            Err(e) => LinkState::Reply(LinkReply::QuotaFailed(e)),
        },
        (LinkState::CheckSender, LinkEvent::SenderChecked { allowed }) => if allowed {
            LinkState::Lookup
        } else {
            LinkState::Reply(LinkReply::Refused)
        },
        (LinkState::Lookup, LinkEvent::LookedUp { found, member }) => match found {
            Lookup::Failed(status) => LinkState::Reply(LinkReply::LookupFailed(status)),
            Lookup::Empty => LinkState::Reply(LinkReply::UnknownName),
            Lookup::Found => if member {
                LinkState::Store
            } else {
                LinkState::Abort
            },
        },
        (LinkState::Store, LinkEvent::Stored { stored }) => if stored {
            LinkState::Reply(LinkReply::Linked)
        } else {
            LinkState::Reply(LinkReply::StoreFailed)
        },
        (state, _) => state,
    }
}

/// What an answer of the upstream API comes to: the status it failed with,
/// or whether it holds a profile.
pub fn looked_up(answer: &Result<Vec<MinecraftUser>, u16>) -> (found: Lookup)
    ensures
        found == match *answer {
            Err(status) => Lookup::Failed(status),
            Ok(profiles) => if profiles@.len() == 0 {
                Lookup::Empty
            } else {
                Lookup::Found
            },
        },
{
    match answer {
        Err(status) => Lookup::Failed(*status),
        Ok(profiles) => if profiles.len() == 0 {
            Lookup::Empty
        } else {
            Lookup::Found
        },
    }
}

/// The account that links `member` to the player with `profile`.
pub fn new_account(member: u64, profile: &MinecraftUser) -> (account: NewMinecraftUser)
    ensures
        account.discord_id == member,
        account.minecraft_uuid@ == profile.id@,
        account.minecraft_name@ == profile.name@,
{
    NewMinecraftUser {
        discord_id: member,
        minecraft_uuid: profile.id.clone(),
        minecraft_name: profile.name.clone(),
    }
}

/// Where the command stands after the events `events`, told in order to a
/// command that has just come in.
pub open spec fn run_all(events: Seq<LinkEvent>) -> LinkState
    decreases events.len(),
{
    if events.len() == 0 {
        LinkState::Start
    } else {
        next(run_all(events.drop_last()), events.last())
    }
}

/// The command is past the quota: it is checking the sender or further on.
pub open spec fn past_quota(state: LinkState) -> bool {
    match state {
        LinkState::Start => false,
        LinkState::AskQuota => false,
        LinkState::Reply(LinkReply::InvalidName) => false,
        LinkState::Reply(LinkReply::OverQuota { .. }) => false,
        LinkState::Reply(LinkReply::QuotaFailed(_)) => false,
        _ => true,
    }
}

/// The command is past the check of its sender: it is looking the name up
/// or further on.
pub open spec fn past_sender(state: LinkState) -> bool {
    match state {
        LinkState::CheckSender => false,
        LinkState::Reply(LinkReply::Refused) => false,
        _ => past_quota(state),
    }
}

/// The event that tells the command that the quota admitted the request.
pub open spec fn admitted() -> LinkEvent {
    LinkEvent::QuotaAsked { answer: Ok(Admission::Admitted) }
}

/// What was told before is still told when one more event follows.
proof fn lemma_told_before(before: Seq<LinkEvent>, events: Seq<LinkEvent>, e: LinkEvent)
    requires
        events.len() > 0,
        before == events.drop_last(),
        before.contains(e),
    ensures
        events.contains(e),
{
    let i = choose|i: int| 0 <= i < before.len() && before[i] == e;
    assert(events[i] == e);
}

/// The upstream API is asked only for requests that the quota has
/// admitted: whatever the command is told and in whatever order, it does not
/// get to the lookup, let alone further, unless it was told that the quota
/// admitted the request; and it does not get there either unless it was told
/// that the sender is allowed.
pub proof fn lemma_lookup_only_after_admission(events: Seq<LinkEvent>)
    ensures
        past_quota(run_all(events)) ==> events.contains(admitted()),
        past_sender(run_all(events)) ==> events.contains(
            LinkEvent::SenderChecked { allowed: true },
        ),
    decreases events.len(),
{
    if events.len() > 0 {
        let before = events.drop_last();
        lemma_lookup_only_after_admission(before);
        assert(events[events.len() - 1] == events.last());
        if past_quota(run_all(before)) {
            lemma_told_before(before, events, admitted());
        }
        if past_sender(run_all(before)) {
            lemma_told_before(before, events, LinkEvent::SenderChecked { allowed: true });
        }
    }
}

/// What the quota said to a request that it did not admit is what the
/// sender is told: a waiting time in the reply is the one the quota named
/// when it rejected the request, an error in the reply is the one the quota
/// met, and a sender who is told that they may not link was checked and was
/// not allowed, after the quota had admitted the request.
pub proof fn lemma_quota_answer_reaches_reply(events: Seq<LinkEvent>)
    ensures
        forall|retry_after: u64|
            run_all(events) == LinkState::Reply(LinkReply::OverQuota { retry_after })
                ==> #[trigger] events.contains(
                LinkEvent::QuotaAsked { answer: Ok(Admission::Rejected { retry_after }) },
            ),
        forall|e: RatelimiterError|
            run_all(events) == LinkState::Reply(LinkReply::QuotaFailed(e))
                ==> #[trigger] events.contains(LinkEvent::QuotaAsked { answer: Err(e) }),
        run_all(events) == LinkState::Reply(LinkReply::Refused) ==> events.contains(admitted())
            && events.contains(LinkEvent::SenderChecked { allowed: false }),
    decreases events.len(),
{
    if events.len() > 0 {
        let before = events.drop_last();
        lemma_quota_answer_reaches_reply(before);
        lemma_lookup_only_after_admission(before);
        assert(events[events.len() - 1] == events.last());
        assert forall|retry_after: u64|
            run_all(events) == LinkState::Reply(
                LinkReply::OverQuota { retry_after },
            ) implies #[trigger] events.contains(
            LinkEvent::QuotaAsked { answer: Ok(Admission::Rejected { retry_after }) },
        ) by {
            let told = LinkEvent::QuotaAsked { answer: Ok(Admission::Rejected { retry_after }) };
            if run_all(before) == LinkState::Reply(LinkReply::OverQuota { retry_after }) {
                lemma_told_before(before, events, told);
            }
        }
        assert forall|e: RatelimiterError|
            run_all(events) == LinkState::Reply(
                LinkReply::QuotaFailed(e),
            ) implies #[trigger] events.contains(LinkEvent::QuotaAsked { answer: Err(e) }) by {
            let told = LinkEvent::QuotaAsked { answer: Err(e) };
            if run_all(before) == LinkState::Reply(LinkReply::QuotaFailed(e)) {
                lemma_told_before(before, events, told);
            }
        }
        if run_all(events) == LinkState::Reply(LinkReply::Refused) {
            if run_all(before) == LinkState::Reply(LinkReply::Refused) {
                lemma_told_before(before, events, admitted());
                lemma_told_before(before, events, LinkEvent::SenderChecked { allowed: false });
            } else {
                assert(run_all(before) == LinkState::CheckSender);
                lemma_told_before(before, events, admitted());
            }
        }
    }
}

/// An account counts as linked only after a profile was found for a member
/// and the database took it.
pub proof fn lemma_linked_only_when_stored(events: Seq<LinkEvent>)
    ensures
        run_all(events) == LinkState::Store || run_all(events) == LinkState::Reply(
            LinkReply::Linked,
        ) ==> events.contains(LinkEvent::LookedUp { found: Lookup::Found, member: true }),
        run_all(events) == LinkState::Reply(LinkReply::Linked) ==> events.contains(
            LinkEvent::Stored { stored: true },
        ),
    decreases events.len(),
{
    if events.len() > 0 {
        let before = events.drop_last();
        lemma_linked_only_when_stored(before);
        assert(events[events.len() - 1] == events.last());
        if run_all(before) == LinkState::Store || run_all(before) == LinkState::Reply(
            LinkReply::Linked,
        ) {
            lemma_told_before(
                before,
                events,
                LinkEvent::LookedUp { found: Lookup::Found, member: true },
            );
        }
        if run_all(before) == LinkState::Reply(LinkReply::Linked) {
            lemma_told_before(before, events, LinkEvent::Stored { stored: true });
        }
    }
}

/// Once the command is over, nothing it is told changes how it ended.
pub proof fn lemma_over_is_over(state: LinkState, event: LinkEvent)
    requires
        state is Reply || state is Abort,
    ensures
        next(state, event) == state,
{
}

} // verus!
