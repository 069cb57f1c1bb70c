//! Numbers the bot is built around.

use vstd::prelude::*;
use crate::ratelimiter::NANOS_PER_SEC;

verus! {

/// Discord id of the bot's author, whom users are told to contact.
pub const BOT_AUTHOR: u64 = 82_982_763_317_166_080;

/// Discord id of the role that marks a member as punished.
pub const PIT_ROLE: u64 = 195_419_638_182_576_128;

/// Longest name a Minecraft account can have.
pub const MAX_NAME_LEN: usize = 16;

/// Discord id of the channel with the server's pins.
pub const MC_CHANNEL_ID: u64 = 708_442_959_586_132_009;

/// Discord id of the channel in which changes of an account are announced.
pub const ANNOUNCE_CHANNEL_ID: u64 = 305_572_919_730_372_618;

/// Discord id of the guild whose members may use the HTTP service.
pub const DISCORD_GUILD_ID: u64 = 951_038_397_726_748_682;

/// Discord id of the application that users log in to.
pub const DISCORD_APP_ID: u64 = 1_084_582_096_804_249_622;

/// Length of the window of the upstream quota: ten minutes.
pub const RATELIMIT_INTERVAL: u64 = 600 * NANOS_PER_SEC;

/// Requests the upstream API takes per window.
pub const RATELIMIT_REQUESTS: u16 = 300;

} // verus!
