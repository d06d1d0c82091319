//! The configuration that the process starts from.
use vstd::prelude::*;

verus! {

/// The shared secrets that the three kinds of request carry.
#[derive(Debug)]
pub struct ConfigAuth {
    pub db: String,
    pub log: String,
    pub ws: String,
}

/// The permission bits of each chat command, or none where the command is
/// not registered.
#[derive(Clone, Copy, Debug, PartialEq, Eq, Structural)]
pub struct ConfigBotCommands {
    pub info_command: Option<u64>,
    pub db_search: Option<u64>,
    pub send_command: Option<u64>,
}

/// A presence template: an online-status name, an activity kind, the
/// activity text (which may hold `{players}` and `{max_players}`) and a link.
#[derive(Debug)]
pub struct PresenceConfig {
    pub status: String,
    pub kind: u8,
    pub name: String,
    pub url: String,
}

/// The online status that a presence shows.
#[derive(Clone, Copy, Debug, PartialEq, Eq, Structural)]
pub enum LocalOnlineStatus {
    DoNotDisturb,
    Idle,
    Invisible,
    Offline,
    Online,
}

/// The online status named `s`: `dnd`, `idle`, `invisible`, `offline`, and
/// online for any other name.
pub open spec fn status_of_name(s: Seq<char>) -> LocalOnlineStatus {
    if s == "dnd"@ {
        LocalOnlineStatus::DoNotDisturb
    } else if s == "idle"@ {
        LocalOnlineStatus::Idle
    } else if s == "invisible"@ {
        LocalOnlineStatus::Invisible
    } else if s == "offline"@ {
        LocalOnlineStatus::Offline
    } else {
        LocalOnlineStatus::Online
    }
}

impl LocalOnlineStatus {
    /// The online status named `s`.
    pub fn from_name(s: &str) -> (r: LocalOnlineStatus)
        ensures
            r == status_of_name(s@),
    {
        if crate::lang::same_text(s, "dnd") {
            LocalOnlineStatus::DoNotDisturb
        } else if crate::lang::same_text(s, "idle") {
            LocalOnlineStatus::Idle
        } else if crate::lang::same_text(s, "invisible") {
            LocalOnlineStatus::Invisible
        } else if crate::lang::same_text(s, "offline") {
            LocalOnlineStatus::Offline
        } else {
            LocalOnlineStatus::Online
        }
    }
}

/// The configuration of the main bot.
#[derive(Debug)]
pub struct ConfigBot {
    pub token: String,
    pub active_guild_id: u64,
    pub default_presence: Option<PresenceConfig>,
    pub commands: ConfigBotCommands,
}

/// The configuration of the bot of one managed server.
#[derive(Debug)]
pub struct ServerBotConfig {
    pub token: String,
    pub active_guild_id: u64,
    pub use_presence: Option<bool>,
    pub default_presence: Option<PresenceConfig>,
    pub active_presence: Option<PresenceConfig>,
    pub commands: ConfigBotCommands,
}

/// Either kind of bot configuration.
#[derive(Debug)]
pub enum BotConfig {
    ConfigBot(ConfigBot),
    ServerBotConfig(ServerBotConfig),
}

/// Guild ids at or below this are not real guild ids (they have fewer than
/// seventeen digits).
pub const MIN_GUILD_ID: u64 = 10000000000000000;

/// Why a bot configuration cannot start a bot.
#[derive(Clone, Copy, Debug, PartialEq, Eq, Structural)]
pub enum BotConfigError {
    EmptyToken,
    InvalidGuildId,
}

/// The token of a bot configuration.
pub open spec fn bot_token(c: BotConfig) -> Seq<char> {
    match c {
        BotConfig::ConfigBot(b) => b.token@,
        BotConfig::ServerBotConfig(b) => b.token@,
    }
}

/// The guild id of a bot configuration.
pub open spec fn bot_guild(c: BotConfig) -> u64 {
    match c {
        BotConfig::ConfigBot(b) => b.active_guild_id,
        BotConfig::ServerBotConfig(b) => b.active_guild_id,
    }
}

impl BotConfig {
    /// The bot's token.
    pub fn get_token(&self) -> (r: String)
        ensures
            r@ == bot_token(*self),
    {
        match self {
            BotConfig::ConfigBot(cfg) => cfg.token.clone(),
            BotConfig::ServerBotConfig(cfg) => cfg.token.clone(),
        }
    }

    /// The id of the guild that the bot registers its commands in.
    pub fn get_operational_guild_id(&self) -> (r: u64)
        ensures
            r == bot_guild(*self),
    {
        match self {
            BotConfig::ConfigBot(cfg) => cfg.active_guild_id,
            BotConfig::ServerBotConfig(cfg) => cfg.active_guild_id,
        }
    }

    /// The permission bits of the chat commands.
    pub fn commands(&self) -> (r: ConfigBotCommands)
        ensures
            r == (match *self {
                BotConfig::ConfigBot(b) => b.commands,
                BotConfig::ServerBotConfig(b) => b.commands,
            }),
    {
        match self {
            BotConfig::ConfigBot(cfg) => cfg.commands,
            BotConfig::ServerBotConfig(cfg) => cfg.commands,
        }
    }

    /// Whether a bot can start from this configuration: its token must not
    /// be empty, and its guild id must have at least seventeen digits.
    pub fn validate(&self) -> (r: Result<(), BotConfigError>)
        ensures
            bot_token(*self).len() == 0 ==> r == Err::<(), BotConfigError>(
                BotConfigError::EmptyToken,
            ),
            bot_token(*self).len() > 0 && bot_guild(*self) <= MIN_GUILD_ID ==> r == Err::<
                (),
                BotConfigError,
            >(BotConfigError::InvalidGuildId),
            bot_token(*self).len() > 0 && bot_guild(*self) > MIN_GUILD_ID ==> r is Ok,
    {
        let token = self.get_token();
        if token.as_str().unicode_len() == 0 {
            return Err(BotConfigError::EmptyToken);
        }
        if self.get_operational_guild_id() <= MIN_GUILD_ID {
            return Err(BotConfigError::InvalidGuildId);
        }
        Ok(())
    }

    /// The presence shown while the server is not known to be up.
    pub fn idle_presence(&self) -> (r: Option<&PresenceConfig>)
        ensures
            presence_of(r) == idle_template(*self),
    {
        match self {
            BotConfig::ConfigBot(cfg) => match &cfg.default_presence {
                Some(p) => Some(p),
                None => None,
            },
            BotConfig::ServerBotConfig(cfg) => match &cfg.default_presence {
                Some(p) => Some(p),
                None => None,
            },
        }
    }

    /// The presence template shown while the server is up: a server bot's
    /// active presence, or its default one when it has none; the main bot
    /// has none.
    pub fn active_presence(&self) -> (r: Option<&PresenceConfig>)
        ensures
            presence_of(r) == active_template(*self),
    {
        match self {
            BotConfig::ConfigBot(_) => None,
            BotConfig::ServerBotConfig(cfg) => match &cfg.active_presence {
                Some(p) => Some(p),
                None => match &cfg.default_presence {
                    Some(p) => Some(p),
                    None => None,
                },
            },
        }
    }
}

/// The template that a borrowed option points to.
pub open spec fn presence_of(o: Option<&PresenceConfig>) -> Option<PresenceConfig> {
    match o {
        Some(p) => Some(*p),
        None => None,
    }
}

/// The presence of a bot while its server is not known to be up.
pub open spec fn idle_template(c: BotConfig) -> Option<PresenceConfig> {
    match c {
        BotConfig::ConfigBot(b) => b.default_presence,
        BotConfig::ServerBotConfig(b) => b.default_presence,
    }
}

/// The presence template of a bot while its server is up.
pub open spec fn active_template(c: BotConfig) -> Option<PresenceConfig> {
    match c {
        BotConfig::ConfigBot(_) => None,
        BotConfig::ServerBotConfig(b) => if b.active_presence is Some {
            b.active_presence
        } else {
            b.default_presence
        },
    }
}

/// One managed server as configured.
#[derive(Debug)]
pub struct ConfigServer {
    pub id: u64,
    pub name: String,
    pub channel_id: String,
    pub bot: BotConfig,
}

/// The inactivity thresholds, in days, of the player records; absent or zero
/// turns a sweep off.
#[derive(Clone, Copy, Debug, PartialEq, Eq, Structural)]
pub struct ConfigDatabases {
    pub player_db_auto_clear_normal: Option<u32>,
    pub player_db_auto_clear_strict: Option<u32>,
    pub leaderboards: bool,
}

/// The whole configuration.
#[derive(Debug)]
pub struct ConfigApp {
    pub server_port: u16,
    pub server_address: String,
    pub auth: ConfigAuth,
    pub main_bot: BotConfig,
    pub lang_path: String,
    pub servers: Vec<ConfigServer>,
    pub databases: ConfigDatabases,
}

/// The port that a new configuration listens on.
pub const DEFAULT_PORT: u16 = 9005;

/// The activity kind of a streaming presence.
pub const STREAMING_ACTIVITY: u8 = 1;

impl ConfigApp {
    /// The configuration written out when none exists yet: no servers, no
    /// secrets, sweeps and leaderboards off, a main bot without a token.
    pub fn create() -> (r: ConfigApp)
        ensures
            r.server_port == DEFAULT_PORT,
            r.server_address@ == "0.0.0.0"@,
            r.auth.db@.len() == 0,
            r.auth.log@.len() == 0,
            r.auth.ws@.len() == 0,
            r.lang_path@ == "./lang.json"@,
            r.servers@.len() == 0,
            r.databases.player_db_auto_clear_normal is None,
            r.databases.player_db_auto_clear_strict is None,
            !r.databases.leaderboards,
            r.main_bot is ConfigBot,
            bot_token(r.main_bot).len() == 0,
            bot_guild(r.main_bot) == 0,
    {
        ConfigApp {
            server_port: DEFAULT_PORT,
            server_address: String::from_str("0.0.0.0"),
            auth: ConfigAuth { db: String::new(), log: String::new(), ws: String::new() },
            lang_path: String::from_str("./lang.json"),
            main_bot: BotConfig::ConfigBot(
                ConfigBot {
                    token: String::new(),
                    active_guild_id: 0,
                    commands: ConfigBotCommands {
                        info_command: None,
                        db_search: None,
                        send_command: None,
                    },
                    default_presence: Some(
                        PresenceConfig {
                            status: String::from_str("dnd"),
                            kind: STREAMING_ACTIVITY,
                            name: String::from_str("DISTRICT SERVER"),
                            url: String::from_str("https://oxydien.dev"),
                        },
                    ),
                },
            ),
            servers: Vec::new(),
            databases: ConfigDatabases {
                player_db_auto_clear_normal: None,
                player_db_auto_clear_strict: None,
                leaderboards: false,
            },
        }
    }
}

} // verus!
