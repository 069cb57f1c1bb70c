//! What the upstream identity API answers to a lookup of player names.

use vstd::prelude::*;

verus! {

/// A player's profile: the UUID as digits in a row, and the name in its
/// proper spelling.
#[derive(Debug, PartialEq, Eq)]
pub struct MinecraftUser {
    pub id: String,
    pub name: String,
}

impl Clone for MinecraftUser {
    fn clone(&self) -> (copy: Self)
        ensures
            copy.id@ == self.id@,
            copy.name@ == self.name@,
    {
        MinecraftUser { id: self.id.clone(), name: self.name.clone() }
    }
}

/// Picks the profile out of the answer to a lookup of one name: the first
/// of the answer, or none where the answer is empty and no player has that
/// name.
pub fn first_profile(profiles: &Vec<MinecraftUser>) -> (found: Option<MinecraftUser>)
    ensures
        found is Some <==> profiles@.len() > 0,
        found matches Some(p) ==> p.id@ == profiles@[0].id@ && p.name@ == profiles@[0].name@,
{
    if profiles.len() == 0 {
        None
    } else {
        Some(profiles[0].clone())
    }
}

} // verus!
