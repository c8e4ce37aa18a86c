use vstd::prelude::*;
use crate::decimal::{decimal_u32_of, decimal_u64_of, parse_u32, parse_u64};

verus! {

/// `text` in lower case, as `str::to_lowercase` gives it.
pub uninterp spec fn lowercase_of(text: Seq<char>) -> Seq<char>;

/// Calls `str::to_lowercase`. The outcome depends on the text alone and is
/// given the name `lowercase_of`.
#[verifier::external_body]
fn to_lowercase(text: &str) -> (r: String)
    ensures
        r@ == lowercase_of(text@),
{
    text.to_lowercase()
}

/// The switch that a lower-case text stands for: `true`, `false`, or the
/// default for anything else.
pub open spec fn flag_of(lowered: Seq<char>, default: bool) -> bool {
    if lowered == "true"@ {
        true
    } else if lowered == "false"@ {
        false
    } else {
        default
    }
}

/// The text of a variable, empty where it is not set.
pub open spec fn text_or_empty(value: Option<&str>) -> Seq<char> {
    match value {
        Some(v) => v@,
        None => ""@,
    }
}

/// Reads a switch from a text that is in lower case already.
pub fn flag_from_lowercase(lowered: &String, default: bool) -> (b: bool)
    ensures
        b == flag_of(lowered@, default),
{
    if *lowered == "true".to_owned() {
        true
    } else if *lowered == "false".to_owned() {
        false
    } else {
        default
    }
}

/// Reads a switch from the value of an environment variable, whatever its
/// case: `true`, `false`, or `default` where it is unset or anything else.
pub fn env_load_bool_with_default(value: Option<&str>, default: bool) -> (b: bool)
    ensures
        b == flag_of(lowercase_of(text_or_empty(value)), default),
{
    let text = match value {
        Some(v) => v,
        None => "",
    };
    let lowered = to_lowercase(text);
    flag_from_lowercase(&lowered, default)
}

/// The values of the environment variables that the configuration reads,
/// `None` where one is unset, and the database path to fall back on.
pub struct Environment {
    pub discord_token: Option<String>,
    pub debug: Option<String>,
    pub debug_guild: Option<String>,
    pub publish_global: Option<String>,
    pub self_deaf: Option<String>,
    pub max_volume: Option<String>,
    pub database_url: Option<String>,
    pub default_database_path: String,
}

/// Why the environment gives no configuration.
#[derive(Debug, Clone, Copy, PartialEq, Eq, Structural)]
pub enum ConfigError {
    MissingDiscordToken,
    /// Debug mode is on and no debug guild is set.
    MissingDebugGuild,
    /// Debug mode is on and the debug guild is no number.
    InvalidDebugGuild,
    InvalidMaxVolume,
}

/// Where the bot's commands are registered at startup.
#[derive(Debug, Clone, Copy, PartialEq, Eq, Structural)]
pub enum Registration {
    InGuild(u64),
    Global,
    Skip,
}

#[derive(Debug, Clone)]
pub struct Config {
    pub database_path: String,
    pub discord_token: String,
    pub is_debug: bool,
    pub debug_guild: Option<u64>,
    pub self_deaf: bool,
    pub max_volume: u32,
    pub should_publish_global: bool,
}

/// The volume limit where none is configured.
pub const DEFAULT_MAX_VOLUME: u32 = 100;

/// The switch that an unset or set variable stands for.
pub open spec fn flag(value: Option<String>, default: bool) -> bool {
    flag_of(
        lowercase_of(
            match value {
                Some(v) => v@,
                None => ""@,
            },
        ),
        default,
    )
}

/// The debug guild: required and numeric in debug mode, else taken where it
/// is a number and dropped where it is not.
pub open spec fn debug_guild_of(debug: bool, value: Option<String>) -> Result<
    Option<u64>,
    ConfigError,
> {
    match value {
        None => if debug {
            Err(ConfigError::MissingDebugGuild)
        } else {
            Ok(None)
        },
        Some(text) => match decimal_u64_of(text@) {
            Some(n) => Ok(Some(n)),
            None => if debug {
                Err(ConfigError::InvalidDebugGuild)
            } else {
                Ok(None)
            },
        },
    }
}

/// The volume limit: the default where unset, else the number given.
pub open spec fn max_volume_of(value: Option<String>) -> Result<u32, ConfigError> {
    match value {
        None => Ok(DEFAULT_MAX_VOLUME),
        Some(text) => match decimal_u32_of(text@) {
            Some(n) => Ok(n),
            None => Err(ConfigError::InvalidMaxVolume),
        },
    }
}

/// Decides the debug guild on the outcome of reading its number.
pub fn resolve_debug_guild(debug: bool, set: bool, number: Option<u64>) -> (r: Result<
    Option<u64>,
    ConfigError,
>)
    ensures
        r == (if set && number is Some {
            Ok::<Option<u64>, ConfigError>(number)
        } else if !debug {
            Ok::<Option<u64>, ConfigError>(None)
        } else if set {
            Err::<Option<u64>, ConfigError>(ConfigError::InvalidDebugGuild)
        } else {
            Err::<Option<u64>, ConfigError>(ConfigError::MissingDebugGuild)
        }),
{
    if set && number.is_some() {
        Ok(number)
    } else if !debug {
        Ok(None)
    } else if set {
        Err(ConfigError::InvalidDebugGuild)
    } else {
        Err(ConfigError::MissingDebugGuild)
    }
}

fn as_text(value: &Option<String>) -> (r: Option<&str>)
    ensures
        r is Some == value is Some,
        r matches Some(t) ==> t@ == value->Some_0@,
{
    match value {
        Some(v) => Some(v.as_str()),
        None => None,
    }
}

impl Config {
    /// Debug mode comes with a debug guild.
    pub open spec fn wf(&self) -> bool {
        self.is_debug ==> self.debug_guild is Some
    }

    /// The configuration that `env` gives, or the first reason why it gives
    /// none: the token is looked at first, then the debug guild, then the
    /// volume limit.
    pub open spec fn read(env: Environment) -> Result<Config, ConfigError> {
        let debug = flag(env.debug, false);
        if env.discord_token is None {
            Err(ConfigError::MissingDiscordToken)
        } else if debug_guild_of(debug, env.debug_guild) is Err {
            Err(debug_guild_of(debug, env.debug_guild)->Err_0)
        } else if max_volume_of(env.max_volume) is Err {
            Err(ConfigError::InvalidMaxVolume)
        } else {
            Ok(
                Config {
                    database_path: match env.database_url {
                        Some(url) => url,
                        None => env.default_database_path,
                    },
                    discord_token: env.discord_token->Some_0,
                    is_debug: debug,
                    debug_guild: debug_guild_of(debug, env.debug_guild)->Ok_0,
                    self_deaf: flag(env.self_deaf, true),
                    max_volume: max_volume_of(env.max_volume)->Ok_0,
                    should_publish_global: flag(env.publish_global, false),
                },
            )
        }
    }

    /// Builds the configuration from the environment's values.
    pub fn get(env: Environment) -> (r: Result<Config, ConfigError>)
        ensures
            r == Self::read(env),
            r matches Ok(config) ==> config.wf(),
    {
        let is_debug = env_load_bool_with_default(as_text(&env.debug), false);
        let should_publish_global = env_load_bool_with_default(as_text(&env.publish_global), false);
        let self_deaf = env_load_bool_with_default(as_text(&env.self_deaf), true);
        let number = match &env.debug_guild {
            Some(text) => parse_u64(text.as_str()),
            None => None,
        };
        let guild = resolve_debug_guild(is_debug, env.debug_guild.is_some(), number);
        let limit = match &env.max_volume {
            Some(text) => parse_u32(text.as_str()),
            None => Some(DEFAULT_MAX_VOLUME),
        };
        let discord_token = match env.discord_token {
            Some(token) => token,
            None => { return Err(ConfigError::MissingDiscordToken); },
        };
        let debug_guild = match guild {
            Ok(g) => g,
            Err(e) => { return Err(e); },
        };
        let max_volume = match limit {
            Some(n) => n,
            None => { return Err(ConfigError::InvalidMaxVolume); },
        };
        let database_path = match env.database_url {
            Some(url) => url,
            None => env.default_database_path,
        };
        Ok(
            Config {
                database_path,
                discord_token,
                is_debug,
                debug_guild,
                self_deaf,
                max_volume,
                should_publish_global,
            },
        )
    }

    /// Where the commands are registered: in the debug guild in debug mode,
    /// else globally if asked for, else nowhere.
    pub fn registration(&self) -> (r: Registration)
        requires
            self.wf(),
        ensures
            r == (if self.is_debug {
                Registration::InGuild(self.debug_guild->Some_0)
            } else if self.should_publish_global {
                Registration::Global
            } else {
                Registration::Skip
            }),
    {
        if self.is_debug {
            match self.debug_guild {
                Some(g) => Registration::InGuild(g),
                None => Registration::Skip,
            }
        } else if self.should_publish_global {
            Registration::Global
        } else {
            Registration::Skip
        }
    }
}

} // verus!
