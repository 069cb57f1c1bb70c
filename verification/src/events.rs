//! What the bot does when a member leaves, comes back, or gets or loses the
//! role that marks a punishment.
//!
//! A linked account is suspended while its owner is away or punished, and
//! restored afterwards. The functions here decide; the caller looks rows up
//! and writes them.

use vstd::prelude::*;
use crate::commands::DieselFind;
use crate::config::Discord;
use crate::constants::PIT_ROLE;
use crate::models::MinecraftUser;

verus! {

/// Says whether `id` is among `ids`.
pub fn contains_id(ids: &Vec<u64>, id: u64) -> (found: bool)
    ensures
        found <==> ids@.contains(id),
{
    let mut i: usize = 0;
    while i < ids.len()
        invariant
            i <= ids.len(),
            forall|j: int| 0 <= j < i ==> ids@[j] != id,
        decreases ids.len() - i,
    {
        if ids[i] == id {
            assert(ids@[i as int] == id);
            return true;
        }
        i = i + 1;
    }
    false
}

/// Says whether an event in `guild` is the bot's business: only the guild
/// it is configured for is.
pub fn concerns(config: &Discord, guild: u64) -> (ours: bool)
    ensures
        ours <==> config.guild_id == guild,
{
    config.guild_id == guild
}

/// A member left `guild`. Says whether their account is to be suspended:
/// it is where the guild is the bot's own.
pub fn guild_member_removal(config: &Discord, guild: u64) -> (suspend: bool)
    ensures
        suspend <==> config.guild_id == guild,
{
    concerns(config, guild)
}

/// A member joined the bot's guild and their row was looked up. Says
/// whether they are greeted and their account restored: they are where a
/// row was found, for then they have been here before.
pub fn guild_member_addition(find: DieselFind) -> (restore: bool)
    ensures
        restore <==> find.0 is None,
{
    find.0.is_none()
}

/// Says whether a member holds the role that marks a punishment.
pub fn is_pitted(roles: &Vec<u64>) -> (pitted: bool)
    ensures
        pitted <==> roles@.contains(PIT_ROLE),
{
    contains_id(roles, PIT_ROLE)
}

/// Says whether a member held the role that marks a punishment before an
/// update. Of a member of whom nothing earlier is known, nothing is
/// presumed.
pub fn was_pitted(old_roles: Option<&Vec<u64>>) -> (pitted: bool)
    ensures
        pitted <==> (old_roles matches Some(roles) && roles@.contains(PIT_ROLE)),
{
    match old_roles {
        Some(roles) => contains_id(roles, PIT_ROLE),
        None => false,
    }
}

/// A member who holds the punishment role was looked up. Says whether
/// their account is suspended and they are told: so it is where they have
/// one.
pub fn suspends(find: DieselFind) -> (suspend: bool)
    ensures
        suspend <==> find.0 is None,
{
    find.0.is_none()
}

/// The account is marked as suspended.
pub open spec fn is_suspended(row: MinecraftUser) -> bool {
    row.suspended == 1
}

/// A member who held the punishment role before was looked up. Says
/// whether their account is restored and they are told: so it is where
/// they have one and it is suspended.
pub fn restores(row: Option<&MinecraftUser>) -> (restore: bool)
    ensures
        restore <==> (row matches Some(r) && is_suspended(*r)),
{
    match row {
        Some(r) => r.suspended == 1,
        None => false,
    }
}

} // verus!
