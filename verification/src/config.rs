//! The bot's configuration record and the values it has before an operator
//! has filled it in.

use vstd::prelude::*;
use vstd::string::StringExecFns;

verus! {

/// Everything the bot is configured with.
#[derive(Debug, Clone, PartialEq)]
pub struct Config {
    pub discord: Discord,
    pub minecraft: Minecraft,
    pub steam: Steam,
    pub mysql: Sql,
}

/// The Discord side: which guild and channel the bot serves, and its token.
#[derive(Debug, Clone, PartialEq)]
pub struct Discord {
    pub start_bot: bool,
    pub guild_id: u64,
    pub channel_id: u64,
    pub token: String,
}

/// Whether Minecraft accounts can be linked.
#[derive(Debug, Clone, PartialEq)]
pub struct Minecraft {
    pub enabled: bool,
}

/// Whether Steam accounts can be linked, and the key for Steam's API.
#[derive(Debug, Clone, PartialEq)]
pub struct Steam {
    pub api_key: String,
    pub enabled: bool,
}

/// Where the whitelist database is and how to log in to it.
#[derive(Debug, Clone, PartialEq)]
pub struct Sql {
    pub username: String,
    pub password: String,
    pub endpoint: String,
    pub port: u16,
    pub database: String,
}

impl Discord {
    /// The record is the one a new configuration file starts with.
    pub open spec fn is_default(&self) -> bool {
        &&& !self.start_bot
        &&& self.guild_id == 0
        &&& self.channel_id == 0
        &&& self.token@ == ""@
    }
}

impl Minecraft {
    /// The record is the one a new configuration file starts with.
    pub open spec fn is_default(&self) -> bool {
        !self.enabled
    }
}

impl Steam {
    /// The record is the one a new configuration file starts with.
    pub open spec fn is_default(&self) -> bool {
        &&& self.api_key@ == "unset"@
        &&& !self.enabled
    }
}

impl Sql {
    /// The record is the one a new configuration file starts with.
    pub open spec fn is_default(&self) -> bool {
        &&& self.username@ == "username"@
        &&& self.password@ == "password"@
        &&& self.endpoint@ == "example.com"@
        &&& self.port == 3306
        &&& self.database@ == "whitelist-suite"@
    }

    /// The address of the database as a connection URL: scheme, login,
    /// host and database name. The port is not part of it.
    pub open spec fn url(&self) -> Seq<char> {
        "mysql://"@ + self.username@ + ":"@ + self.password@ + "@"@ + self.endpoint@ + "/"@
            + self.database@
    }

    /// Builds the connection URL of the database.
    pub fn database_url(&self) -> (url: String)
        ensures
            url@ == self.url(),
    {
        let mut url = String::from_str("mysql://");
        url.append(self.username.as_str());
        url.append(":");
        url.append(self.password.as_str());
        url.append("@");
        url.append(self.endpoint.as_str());
        url.append("/");
        url.append(self.database.as_str());
        url
    }
}

impl Config {
    /// The record is the one a new configuration file starts with.
    pub open spec fn is_default(&self) -> bool {
        &&& self.discord.is_default()
        &&& self.minecraft.is_default()
        &&& self.steam.is_default()
        &&& self.mysql.is_default()
    }
}

impl Default for Discord {
    fn default() -> (r: Self)
        ensures
            r.is_default(),
    {
        Discord { start_bot: false, guild_id: 0u64, channel_id: 0u64, token: String::from_str("") }
    }
}

impl Default for Minecraft {
    fn default() -> (r: Self)
        ensures
            r.is_default(),
    {
        Minecraft { enabled: false }
    }
}

impl Default for Steam {
    fn default() -> (r: Self)
        ensures
            r.is_default(),
    {
        Steam { api_key: String::from_str("unset"), enabled: false }
    }
}

impl Default for Sql {
    fn default() -> (r: Self)
        ensures
            r.is_default(),
    {
        Sql {
            username: String::from_str("username"),
            password: String::from_str("password"),
            endpoint: String::from_str("example.com"),
            port: 3306u16,
            database: String::from_str("whitelist-suite"),
        }
    }
}

impl Default for Config {
    fn default() -> (r: Self)
        ensures
            r.is_default(),
    {
        Config {
            discord: Discord::default(),
            minecraft: Minecraft::default(),
            steam: Steam::default(),
            mysql: Sql::default(),
        }
    }
}

} // verus!
