//! The command that unlinks a Minecraft account, as a machine.

use vstd::prelude::*;

verus! {

/// What the bot answers to the command.
#[derive(Debug, Clone, Copy, PartialEq, Eq, Structural)]
pub enum UnlinkReply {
    /// The account is unlinked.
    Unlinked,
    /// The account was not unlinked.
    NotUnlinked,
    /// No connection to the database could be had.
    NoConnection,
}

/// Where the command stands: what is to be done next, or how it ended.
#[derive(Debug, Clone, Copy, PartialEq, Eq, Structural)]
pub enum UnlinkState {
    /// The command has just come in.
    Start,
    /// A connection to the database is needed.
    Connect,
    /// The account of the named user is to be deleted.
    Delete,
    /// The sender is to be answered; the command is over.
    Reply(UnlinkReply),
    /// The command is over without an answer: it names no user.
    Ignore,
}

/// What the command is told.
#[derive(Debug, Clone, Copy, PartialEq, Eq, Structural)]
pub enum UnlinkEvent {
    /// The command was read; `names_user` says whether its argument is a
    /// user.
    Invoked { names_user: bool },
    /// A connection was asked for, and had or not.
    Connected { connected: bool },
    /// The database was asked to delete the account.
    Deleted { deleted: bool },
}

/// Where the command stands after an event. An event that the command does
/// not wait for changes nothing.
pub open spec fn next(state: UnlinkState, event: UnlinkEvent) -> UnlinkState {
    match (state, event) {
        (UnlinkState::Start, UnlinkEvent::Invoked { names_user }) => if names_user {
            UnlinkState::Connect
        } else {
            UnlinkState::Ignore
        },
        (UnlinkState::Connect, UnlinkEvent::Connected { connected }) => if connected {
            UnlinkState::Delete
        } else {
            UnlinkState::Reply(UnlinkReply::NoConnection)
        },
        (UnlinkState::Delete, UnlinkEvent::Deleted { deleted }) => if deleted {
            UnlinkState::Reply(UnlinkReply::Unlinked)
        } else {
            UnlinkState::Reply(UnlinkReply::NotUnlinked)
        },
        _ => state,
    }
}

/// Takes the command one step further.
pub fn run(state: UnlinkState, event: UnlinkEvent) -> (then: UnlinkState)
    ensures
        then == next(state, event),
{
    match (state, event) {
        (UnlinkState::Start, UnlinkEvent::Invoked { names_user }) => if names_user {
            UnlinkState::Connect
        } else {
            UnlinkState::Ignore
        },
        (UnlinkState::Connect, UnlinkEvent::Connected { connected }) => if connected {
            UnlinkState::Delete
        } else {
            UnlinkState::Reply(UnlinkReply::NoConnection)
        },
        (UnlinkState::Delete, UnlinkEvent::Deleted { deleted }) => if deleted {
            UnlinkState::Reply(UnlinkReply::Unlinked)
        } else {
            UnlinkState::Reply(UnlinkReply::NotUnlinked)
        },
        (state, _) => state,
    }
}

/// Where the command stands after the events `events`, told in order to a
/// command that has just come in.
pub open spec fn run_all(events: Seq<UnlinkEvent>) -> UnlinkState
    decreases events.len(),
{
    if events.len() == 0 {
        UnlinkState::Start
    } else {
        next(run_all(events.drop_last()), events.last())
    }
}

/// An account counts as unlinked only after the database deleted it.
pub proof fn lemma_unlinked_only_when_deleted(events: Seq<UnlinkEvent>)
    ensures
        run_all(events) == UnlinkState::Reply(UnlinkReply::Unlinked) ==> events.contains(
            UnlinkEvent::Deleted { deleted: true },
        ),
    decreases events.len(),
{
    if events.len() > 0 {
        let before = events.drop_last();
        lemma_unlinked_only_when_deleted(before);
        assert(events[events.len() - 1] == events.last());
        if before.contains(UnlinkEvent::Deleted { deleted: true }) {
            let i = choose|i: int|
                0 <= i < before.len() && before[i] == (UnlinkEvent::Deleted { deleted: true });
            assert(events[i] == (UnlinkEvent::Deleted { deleted: true }));
        }
    }
}

} // verus!
