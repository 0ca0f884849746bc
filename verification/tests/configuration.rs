use std::collections::HashMap;

use discord_bots::cleanup_bot::config::{
    default_check_interval, default_max_retries, default_upload_folder, BackupWorkerConfig,
    ChannelConfig, Config, MediaBackupConfig, RetentionConfig,
};
use discord_bots::summarizer::config::{
    Config as SummarizerConfig, ConfigError, EnvValues, EnvVar,
};

fn channel(name: &str, policy_days: Option<u32>, cursor: Option<u64>) -> ChannelConfig {
    ChannelConfig { name: name.to_string(), policy_days, pagination_cursor: cursor }
}

fn config_with(channels: HashMap<u64, ChannelConfig>) -> Config {
    Config::new(
        3600,
        RetentionConfig { default_policy_days: 30 },
        MediaBackupConfig::default(),
        None,
        channels,
    )
}

#[test]
fn defaults_of_the_configuration() {
    assert_eq!(default_upload_folder(), "/discord-backups");
    assert_eq!(default_check_interval(), 60);
    assert_eq!(default_max_retries(), 5);
    let worker = BackupWorkerConfig::default();
    assert_eq!(worker.check_interval_seconds, 60);
    assert_eq!(worker.max_retries, 5);
    let media = MediaBackupConfig::default();
    assert_eq!(media.download_dir, "./media_backups");
    assert_eq!(media.worker.max_retries, 5);
}

#[test]
fn policy_resolves_to_channel_override_or_default() {
    let config = config_with(HashMap::new());
    assert_eq!(channel("a", Some(7), None).resolve_policy_days(&config), 7);
    assert_eq!(channel("a", None, None).resolve_policy_days(&config), 30);
}

#[test]
fn add_channel_returns_the_retention_that_applies() {
    let mut config = config_with(HashMap::new());
    assert_eq!(config.add_channel_config(1, channel("general", None, None)), 30);
    assert_eq!(config.add_channel_config(2, channel("memes", Some(3), None)), 3);
    assert_eq!(config.channels().len(), 2);
    assert_eq!(config.channels()[&2].name, "memes");
}

#[test]
fn stricter_policy_clears_the_cursor() {
    let mut channels = HashMap::new();
    channels.insert(1, channel("general", Some(10), Some(555)));
    let mut config = config_with(channels);
    assert_eq!(config.add_channel_config(1, channel("general", Some(5), Some(555))), 5);
    assert_eq!(config.get_pagination_cursor(1), None);
}

#[test]
fn looser_or_equal_policy_keeps_the_given_cursor() {
    let mut channels = HashMap::new();
    channels.insert(1, channel("general", Some(10), Some(555)));
    let mut config = config_with(channels);
    assert_eq!(config.add_channel_config(1, channel("general", Some(10), Some(777))), 10);
    assert_eq!(config.get_pagination_cursor(1), Some(777));
    assert_eq!(config.add_channel_config(1, channel("general", None, Some(888))), 30);
    assert_eq!(config.get_pagination_cursor(1), Some(888));
}

#[test]
fn cursor_reads_back_what_was_written() {
    let mut channels = HashMap::new();
    channels.insert(4, channel("general", None, None));
    let mut config = config_with(channels);
    assert!(config.set_pagination_cursor(4, Some(123)));
    assert_eq!(config.get_pagination_cursor(4), Some(123));
    assert!(config.set_pagination_cursor(4, None));
    assert_eq!(config.get_pagination_cursor(4), None);
}

#[test]
fn cursor_of_unknown_channel_is_not_stored() {
    let mut config = config_with(HashMap::new());
    assert!(!config.set_pagination_cursor(9, Some(1)));
    assert_eq!(config.get_pagination_cursor(9), None);
    assert!(config.channels().is_empty());
}

#[test]
fn removed_channel_is_gone() {
    let mut channels = HashMap::new();
    channels.insert(1, channel("a", None, Some(3)));
    channels.insert(2, channel("b", None, None));
    let mut config = config_with(channels);
    config.remove_channel(1);
    assert_eq!(config.get_pagination_cursor(1), None);
    assert_eq!(config.enabled_channels(), vec![(2, 30)]);
    config.remove_channel(1);
    assert_eq!(config.channels().len(), 1);
}

#[test]
fn enabled_channels_lists_each_once_with_its_retention() {
    let mut channels = HashMap::new();
    channels.insert(1, channel("a", None, None));
    channels.insert(2, channel("b", Some(2), None));
    channels.insert(3, channel("c", Some(90), None));
    let config = config_with(channels);
    let mut listed = config.enabled_channels();
    listed.sort();
    assert_eq!(listed, vec![(1, 30), (2, 2), (3, 90)]);
}

fn full_env() -> EnvValues {
    EnvValues {
        discord_token: Some("token".to_string()),
        llm_model: Some("llama3".to_string()),
        llm_host: Some("http://localhost".to_string()),
        llm_port: Some("11434".to_string()),
        message_length_min: Some("200".to_string()),
        message_length_max: Some("4000".to_string()),
    }
}

#[test]
fn summarizer_config_from_full_environment() {
    let config = match SummarizerConfig::from_env(full_env()) {
        Ok(c) => c,
        Err(e) => panic!("{}", e.message()),
    };
    assert_eq!(config.discord_token, "token");
    assert_eq!(config.llm_model, "llama3");
    assert_eq!(config.llm_host, "http://localhost");
    assert_eq!(config.llm_port, 11434);
    assert_eq!(config.message_length_min, 200);
    assert_eq!(config.message_length_max, 4000);
}

#[test]
fn summarizer_config_equal_bounds_are_accepted() {
    let mut env = full_env();
    env.message_length_min = Some("50".to_string());
    env.message_length_max = Some("50".to_string());
    assert!(SummarizerConfig::from_env(env).is_ok());
}

fn error_of(env: EnvValues) -> ConfigError {
    match SummarizerConfig::from_env(env) {
        Ok(_) => panic!("expected an error"),
        Err(e) => e,
    }
}

#[test]
fn summarizer_config_missing_variables() {
    let mut env = full_env();
    env.discord_token = None;
    let e = error_of(env);
    assert_eq!(e, ConfigError::Missing(EnvVar::DiscordToken));
    assert_eq!(e.message(), "Expected DISCORD_TOKEN in environment");

    let mut env = full_env();
    env.llm_model = None;
    assert_eq!(error_of(env).message(), "Expected LLM_MODEL in environment");

    let mut env = full_env();
    env.llm_host = None;
    assert_eq!(error_of(env), ConfigError::Missing(EnvVar::LlmHost));


    let mut env = full_env();
    env.message_length_min = None;
    assert_eq!(error_of(env), ConfigError::Missing(EnvVar::MessageLengthMin));

    let mut env = full_env();
    env.message_length_max = None;
    assert_eq!(error_of(env).message(), "Expected MESSAGE_LENGTH_MAX in environment");
}

#[test]
fn summarizer_config_first_problem_wins() {
    let mut env = full_env();
    env.discord_token = None;
    env.llm_port = Some("not a port".to_string());
    assert_eq!(error_of(env), ConfigError::Missing(EnvVar::DiscordToken));
}

#[test]
fn summarizer_config_invalid_numbers() {
    let mut env = full_env();
    env.llm_port = Some("70000".to_string());
    let e = error_of(env);
    assert_eq!(e, ConfigError::Invalid(EnvVar::LlmPort));
    assert_eq!(e.message(), "LLM_PORT must be a valid port number");

    let mut env = full_env();
    env.message_length_min = Some("-1".to_string());
    let e = error_of(env);
    assert_eq!(e, ConfigError::Invalid(EnvVar::MessageLengthMin));
    assert_eq!(e.message(), "MESSAGE_LENGTH_MIN must be a valid number");

    let mut env = full_env();
    env.message_length_max = Some("lots".to_string());
    assert_eq!(error_of(env).message(), "MESSAGE_LENGTH_MAX must be a valid number");
}

#[test]
fn summarizer_config_reversed_bounds() {
    let mut env = full_env();
    env.message_length_min = Some("5000".to_string());
    let e = error_of(env);
    assert_eq!(e, ConfigError::LengthBoundsReversed);
    assert_eq!(e.message(), "MESSAGE_LENGTH_MIN must be <= MESSAGE_LENGTH_MAX");
}

#[test]
fn summarizer_config_port_defaults_to_ollama() {
    let mut env = full_env();
    env.llm_port = None;
    match SummarizerConfig::from_env(env) {
        Ok(c) => assert_eq!(c.llm_port, 11434),
        Err(e) => panic!("{}", e.message()),
    }
    let mut env = full_env();
    env.llm_port = None;
    env.message_length_min = Some("9".to_string());
    env.message_length_max = Some("1".to_string());
    assert_eq!(error_of(env), ConfigError::LengthBoundsReversed);
}
