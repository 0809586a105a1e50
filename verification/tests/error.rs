use bot_supervisor::config::load_config;
use bot_supervisor::config::BotConfig;
use bot_supervisor::error::SupervisorError;

#[test]
fn error_messages() {
    assert_eq!(SupervisorError::AlreadyRunning.message(), "Bot is already running");
    assert_eq!(SupervisorError::NotRunning.message(), "Bot is not running");
    assert_eq!(
        SupervisorError::WorkerFilesMissing.message(),
        "Bot files not found. Please reinstall the application."
    );
    assert_eq!(SupervisorError::ConfigNotSaved.message(), "Please save the configuration first");
    assert_eq!(SupervisorError::TokenMissing.message(), "Please enter a Bot Token first");
    assert_eq!(SupervisorError::WorkerNotReady.message(), "Bot not ready");
}

#[test]
fn error_messages_with_detail() {
    assert_eq!(
        SupervisorError::DependencyInstallFailed { detail: "E404".to_string(), ran: true }
            .message(),
        "Failed to install dependencies: E404"
    );
    assert_eq!(
        SupervisorError::DependencyInstallFailed { detail: "not found".to_string(), ran: false }
            .message(),
        "Failed to run npm install: not found. Is Node.js installed?"
    );
    assert_eq!(SupervisorError::ConfigSyncFailed("denied".to_string()).message(), "denied");
    assert_eq!(
        SupervisorError::SpawnFailed("No such file or directory".to_string()).message(),
        "Error starting: No such file or directory. Is Node.js installed?"
    );
    assert_eq!(SupervisorError::IoFailure("broken pipe".to_string()).message(), "broken pipe");
}

#[test]
fn unreachable_messages_tell_the_probe_apart() {
    assert_eq!(SupervisorError::ApiUnreachable { ping: true }.message(), "Bot not reachable");
    assert_eq!(
        SupervisorError::ApiUnreachable { ping: false }.message(),
        "Bot API not reachable"
    );
}

#[test]
fn default_config_has_no_token_and_bang_prefix() {
    let c = BotConfig::default();
    assert_eq!(c.token, "");
    assert_eq!(c.client_id, "");
    assert_eq!(c.guild_id, "");
    assert_eq!(c.prefix, "!");
    assert!(!c.has_token());
}

#[test]
fn loading_without_a_stored_config_gives_the_default() {
    assert_eq!(load_config(None), BotConfig::default());
}

#[test]
fn loading_gives_back_what_is_stored() {
    let stored = BotConfig {
        token: "abc".to_string(),
        client_id: "1".to_string(),
        guild_id: "2".to_string(),
        prefix: "?".to_string(),
    };
    let loaded = load_config(Some(stored.clone()));
    assert_eq!(loaded, stored);
    assert!(loaded.has_token());
    assert_eq!(load_config(Some(load_config(Some(stored.clone())))), stored);
}
