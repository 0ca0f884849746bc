//! The summarizer's configuration, read from environment variables.
//!
//! Reading the environment is the caller's part: it hands over what each
//! variable holds, or `None` when it is unset (or not Unicode).

use vstd::prelude::*;

use crate::text::{parse_unsigned, parse_unsigned_text};

verus! {

/// The settings of the bot.
pub struct Config {
    pub discord_token: String,
    pub llm_model: String,
    pub llm_host: String,
    pub llm_port: u16,
    /// Messages at least this long (in bytes) are summarized.
    pub message_length_min: usize,
    /// Messages longer than this (in bytes) are not summarized.
    pub message_length_max: usize,
}

/// What the environment holds for each variable of the configuration.
pub struct EnvValues {
    pub discord_token: Option<String>,
    pub llm_model: Option<String>,
    pub llm_host: Option<String>,
    pub llm_port: Option<String>,
    pub message_length_min: Option<String>,
    pub message_length_max: Option<String>,
}

/// The port of the language model's server when `LLM_PORT` is not set:
/// Ollama's default.
pub const DEFAULT_LLM_PORT: u16 = 11434;

/// The variables of the configuration.
#[derive(Debug, PartialEq, Eq, Structural)]
pub enum EnvVar {
    DiscordToken,
    LlmModel,
    LlmHost,
    LlmPort,
    MessageLengthMin,
    MessageLengthMax,
}

/// Why the configuration cannot be built.
#[derive(Debug, PartialEq, Eq, Structural)]
pub enum ConfigError {
    /// The variable is not set.
    Missing(EnvVar),
    /// The variable does not hold a number of its type.
    Invalid(EnvVar),
    /// The minimum message length is above the maximum.
    LengthBoundsReversed,
}

/// The name of variable `v`.
pub open spec fn var_name(v: EnvVar) -> Seq<char> {
    match v {
        EnvVar::DiscordToken => "DISCORD_TOKEN"@,
        EnvVar::LlmModel => "LLM_MODEL"@,
        EnvVar::LlmHost => "LLM_HOST"@,
        EnvVar::LlmPort => "LLM_PORT"@,
        EnvVar::MessageLengthMin => "MESSAGE_LENGTH_MIN"@,
        EnvVar::MessageLengthMax => "MESSAGE_LENGTH_MAX"@,
    }
}

/// The message of error `e`.
pub open spec fn error_message(e: ConfigError) -> Seq<char> {
    match e {
        ConfigError::Missing(v) => "Expected "@ + var_name(v) + " in environment"@,
        ConfigError::Invalid(EnvVar::LlmPort) => "LLM_PORT must be a valid port number"@,
        ConfigError::Invalid(v) => var_name(v) + " must be a valid number"@,
        ConfigError::LengthBoundsReversed => "MESSAGE_LENGTH_MIN must be <= MESSAGE_LENGTH_MAX"@,
    }
}

/// The number that `v` holds, read as an unsigned number up to `max`.
pub open spec fn parsed(v: String, max: nat) -> Option<nat> {
    parse_unsigned(v@, max)
}

/// The first problem of `env`, in the order the variables are read:
/// `DISCORD_TOKEN`, `LLM_MODEL`, `LLM_HOST`, `LLM_PORT` (a `u16` when set;
/// it may be left unset),
/// `MESSAGE_LENGTH_MIN` and `MESSAGE_LENGTH_MAX` (each a `usize`), then the
/// order of the two lengths.
pub open spec fn env_error(env: EnvValues) -> Option<ConfigError> {
    if env.discord_token is None {
        Some(ConfigError::Missing(EnvVar::DiscordToken))
    } else if env.llm_model is None {
        Some(ConfigError::Missing(EnvVar::LlmModel))
    } else if env.llm_host is None {
        Some(ConfigError::Missing(EnvVar::LlmHost))
    } else if env.llm_port is Some && parsed(env.llm_port->0, u16::MAX as nat) is None {
        Some(ConfigError::Invalid(EnvVar::LlmPort))
    } else if env.message_length_min is None {
        Some(ConfigError::Missing(EnvVar::MessageLengthMin))
    } else if parsed(env.message_length_min->0, usize::MAX as nat) is None {
        Some(ConfigError::Invalid(EnvVar::MessageLengthMin))
    } else if env.message_length_max is None {
        Some(ConfigError::Missing(EnvVar::MessageLengthMax))
    } else if parsed(env.message_length_max->0, usize::MAX as nat) is None {
        Some(ConfigError::Invalid(EnvVar::MessageLengthMax))
    } else if parsed(env.message_length_min->0, usize::MAX as nat)->0 > parsed(
        env.message_length_max->0,
        usize::MAX as nat,
    )->0 {
        Some(ConfigError::LengthBoundsReversed)
    } else {
        None
    }
}

impl ConfigError {
    /// The message of the error.
    pub fn message(&self) -> (s: String)
        ensures
            s@ == error_message(*self),
    {
        match self {
            ConfigError::Missing(v) => {
                let mut s = String::from_str("Expected ");
                s.append(var_name_text(v));
                s.append(" in environment");
                s
            },
            ConfigError::Invalid(EnvVar::LlmPort) => String::from_str(
                "LLM_PORT must be a valid port number",
            ),
            ConfigError::Invalid(v) => {
                let mut s = String::from_str(var_name_text(v));
                s.append(" must be a valid number");
                s
            },
            ConfigError::LengthBoundsReversed => String::from_str(
                "MESSAGE_LENGTH_MIN must be <= MESSAGE_LENGTH_MAX",
            ),
        }
    }
}

fn var_name_text(v: &EnvVar) -> (s: &'static str)
    ensures
        s@ == var_name(*v),
{
    match v {
        EnvVar::DiscordToken => "DISCORD_TOKEN",
        EnvVar::LlmModel => "LLM_MODEL",
        EnvVar::LlmHost => "LLM_HOST",
        EnvVar::LlmPort => "LLM_PORT",
        EnvVar::MessageLengthMin => "MESSAGE_LENGTH_MIN",
        EnvVar::MessageLengthMax => "MESSAGE_LENGTH_MAX",
    }
}

impl Config {
    /// Builds the configuration from the environment's values; fails on the
    /// first variable that is missing or not a number of its type, and when
    /// the minimum message length is above the maximum. An unset `LLM_PORT`
    /// means port 11434.
    pub fn from_env(env: EnvValues) -> (r: Result<Config, ConfigError>)
        ensures
            match r {
                Err(e) => env_error(env) == Some(e),
                Ok(c) => {
                    &&& env_error(env) is None
                    &&& c.message_length_min <= c.message_length_max
                    &&& env.discord_token == Some(c.discord_token)
                    &&& env.llm_model == Some(c.llm_model)
                    &&& env.llm_host == Some(c.llm_host)
                    &&& match env.llm_port {
                        Some(p) => parsed(p, u16::MAX as nat) == Some(c.llm_port as nat),
                        None => c.llm_port == DEFAULT_LLM_PORT,
                    }
                    &&& parsed(env.message_length_min->0, usize::MAX as nat) == Some(
                        c.message_length_min as nat,
                    )
                    &&& parsed(env.message_length_max->0, usize::MAX as nat) == Some(
                        c.message_length_max as nat,
                    )
                },
            },
    {
        let EnvValues {
            discord_token,
            llm_model,
            llm_host,
            llm_port,
            message_length_min,
            message_length_max,
        } = env;
        let discord_token = match discord_token {
            Some(v) => v,
            None => return Err(ConfigError::Missing(EnvVar::DiscordToken)),
        };
        let llm_model = match llm_model {
            Some(v) => v,
            None => return Err(ConfigError::Missing(EnvVar::LlmModel)),
        };
        let llm_host = match llm_host {
            Some(v) => v,
            None => return Err(ConfigError::Missing(EnvVar::LlmHost)),
        };
        let llm_port = match llm_port {
            Some(v) => match parse_unsigned_text(v.as_str(), u16::MAX as u64) {
                Some(p) => p as u16,
                None => return Err(ConfigError::Invalid(EnvVar::LlmPort)),
            },
            None => DEFAULT_LLM_PORT,
        };
        let message_length_min = match message_length_min {
            Some(v) => match parse_unsigned_text(v.as_str(), usize::MAX as u64) {
                Some(n) => n as usize,
                None => return Err(ConfigError::Invalid(EnvVar::MessageLengthMin)),
            },
            None => return Err(ConfigError::Missing(EnvVar::MessageLengthMin)),
        };
        let message_length_max = match message_length_max {
            Some(v) => match parse_unsigned_text(v.as_str(), usize::MAX as u64) {
                Some(n) => n as usize,
                None => return Err(ConfigError::Invalid(EnvVar::MessageLengthMax)),
            },
            None => return Err(ConfigError::Missing(EnvVar::MessageLengthMax)),
        };
        if message_length_min > message_length_max {
            return Err(ConfigError::LengthBoundsReversed);
        }
        Ok(
            Config {
                discord_token,
                llm_model,
                llm_host,
                llm_port,
                message_length_min,
                message_length_max,
            },
        )
    }
}

} // verus!
