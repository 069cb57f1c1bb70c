//! Rows of the whitelist tables, keyed by Discord user id.

use vstd::prelude::*;
use vstd::std_specs::convert::FromSpecImpl;

verus! {

/// What a client is told about a linked account.
#[derive(Debug, Clone, PartialEq, Eq)]
pub struct MCStatus {
    /// The row's suspension flag, read as an unsigned byte.
    pub status: u8,
    pub uuid: String,
}

/// A linked Minecraft account as it is stored.
#[derive(Debug, Clone, PartialEq, Eq)]
pub struct MinecraftUser {
    pub discord_id: u64,
    pub minecraft_uuid: String,
    pub minecraft_name: String,
    /// 1 while the account is suspended, 0 otherwise.
    pub suspended: i8,
}

/// A Minecraft account about to be linked.
#[derive(Debug, Clone, PartialEq, Eq)]
pub struct NewMinecraftUser {
    pub discord_id: u64,
    pub minecraft_uuid: String,
    pub minecraft_name: String,
}

/// A linked Steam account as it is stored.
#[derive(Debug, Clone, Copy, PartialEq, Eq)]
pub struct SteamUser {
    pub discord_id: u64,
    pub steam_id: u64,
}

/// A player on the server's whitelist.
#[derive(Debug, Clone, PartialEq, Eq)]
pub struct WhitelistEntry {
    pub uuid: String,
    pub name: String,
}

/// A player the server has banned.
#[derive(Debug, Clone, PartialEq, Eq)]
pub struct BlacklistEntry {
    pub uuid: String,
    pub name: String,
    pub created: Option<String>,
    pub source: Option<String>,
    pub expires: Option<String>,
    pub reason: Option<String>,
}

/// A signed byte read as an unsigned one, bit for bit: negative values wrap
/// around to the upper half.
pub open spec fn as_unsigned(flag: i8) -> u8 {
    if flag >= 0 {
        flag as u8
    } else {
        (flag + 256) as u8
    }
}

/// Reads a signed byte as an unsigned one.
pub fn to_unsigned(flag: i8) -> (b: u8)
    ensures
        b == as_unsigned(flag),
{
    let b: u8 = flag as u8;
    assert(b == as_unsigned(flag)) by (bit_vector)
        requires
            b == flag as u8,
    ;
    b
}

impl From<MinecraftUser> for MCStatus {
    fn from(data: MinecraftUser) -> (ret: Self) {
        MCStatus { status: to_unsigned(data.suspended), uuid: data.minecraft_uuid }
    }
}

impl FromSpecImpl<MinecraftUser> for MCStatus {
    open spec fn obeys_from_spec() -> bool {
        true
    }

    open spec fn from_spec(data: MinecraftUser) -> Self {
        MCStatus { status: as_unsigned(data.suspended), uuid: data.minecraft_uuid }
    }
}

} // verus!
