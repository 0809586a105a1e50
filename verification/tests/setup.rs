use bot_supervisor::command::CommandOutcome;
use bot_supervisor::config::BotConfig;
use bot_supervisor::paths::layout_in;
use bot_supervisor::setup::admit_install;
use bot_supervisor::setup::check_node_installed;
use bot_supervisor::setup::check_setup_status;
use bot_supervisor::setup::clear_all_data;
use bot_supervisor::setup::data_items;
use bot_supervisor::setup::install_bot_dependencies;
use bot_supervisor::setup::DataItem;
use bot_supervisor::setup::SetupProbe;
use bot_supervisor::setup::SetupStatus;

fn finished(success: bool, stdout: &str, stderr: &str) -> CommandOutcome {
    CommandOutcome::Finished { success, stdout: stdout.to_string(), stderr: stderr.to_string() }
}

fn not_run(reason: &str) -> CommandOutcome {
    CommandOutcome::NotRun { reason: reason.to_string() }
}

fn config(token: &str) -> BotConfig {
    BotConfig {
        token: token.to_string(),
        client_id: String::new(),
        guild_id: String::new(),
        prefix: "!".to_string(),
    }
}

fn all_there() -> SetupProbe {
    SetupProbe {
        runtime: finished(true, "v20.11.1\n", ""),
        entry_point: true,
        package_file: true,
        modules_dir: true,
        modules_marker: true,
        config_file: true,
        config: Some(config("secret")),
    }
}

#[test]
fn runtime_version_is_trimmed() {
    assert_eq!(check_node_installed(&finished(true, "v20.11.1\n", "")), Ok("v20.11.1".to_string()));
    assert_eq!(
        check_node_installed(&finished(true, "  v18.0.0 \r\n", "warn")),
        Ok("v18.0.0".to_string())
    );
    assert_eq!(check_node_installed(&finished(true, "", "")), Ok(String::new()));
}

#[test]
fn runtime_that_fails_is_not_found() {
    assert_eq!(
        check_node_installed(&finished(false, "v20", "boom")),
        Err("Node.js not found".to_string())
    );
}

#[test]
fn runtime_that_cannot_run_is_not_installed() {
    assert_eq!(
        check_node_installed(&not_run("No such file or directory")),
        Err("Node.js not installed. Please install Node.js from https://nodejs.org".to_string())
    );
}

#[test]
fn everything_there_means_ready() {
    assert_eq!(
        check_setup_status(&all_there()),
        SetupStatus {
            node_installed: true,
            node_version: "v20.11.1".to_string(),
            bot_files_exist: true,
            dependencies_installed: true,
            config_exists: true,
            token_set: true,
            ready: true,
        }
    );
}

#[test]
fn nothing_there_means_nothing_ready() {
    let probe = SetupProbe {
        runtime: not_run("missing"),
        entry_point: false,
        package_file: false,
        modules_dir: false,
        modules_marker: false,
        config_file: false,
        config: None,
    };
    assert_eq!(
        check_setup_status(&probe),
        SetupStatus {
            node_installed: false,
            node_version: String::new(),
            bot_files_exist: false,
            dependencies_installed: false,
            config_exists: false,
            token_set: false,
            ready: false,
        }
    );
}

#[test]
fn ready_does_not_wait_for_dependencies() {
    let mut probe = all_there();
    probe.modules_dir = false;
    let status = check_setup_status(&probe);
    assert!(!status.dependencies_installed);
    assert!(status.ready);
    let mut probe = all_there();
    probe.modules_marker = false;
    let status = check_setup_status(&probe);
    assert!(!status.dependencies_installed);
    assert!(status.ready);
}

#[test]
fn ready_needs_runtime_files_and_token() {
    let mut probe = all_there();
    probe.runtime = finished(false, "v1", "");
    let status = check_setup_status(&probe);
    assert!(!status.node_installed);
    assert_eq!(status.node_version, "");
    assert!(!status.ready);

    let mut probe = all_there();
    probe.package_file = false;
    let status = check_setup_status(&probe);
    assert!(!status.bot_files_exist);
    assert!(!status.ready);

    let mut probe = all_there();
    probe.entry_point = false;
    assert!(!check_setup_status(&probe).ready);

    let mut probe = all_there();
    probe.config = Some(config(""));
    let status = check_setup_status(&probe);
    assert!(status.config_exists);
    assert!(!status.token_set);
    assert!(!status.ready);
}

#[test]
fn unreadable_config_counts_as_no_token() {
    let mut probe = all_there();
    probe.config = None;
    let status = check_setup_status(&probe);
    assert!(status.config_exists);
    assert!(!status.token_set);
    assert!(!status.ready);
}

#[test]
fn config_without_file_counts_as_no_token() {
    let mut probe = all_there();
    probe.config_file = false;
    let status = check_setup_status(&probe);
    assert!(!status.config_exists);
    assert!(!status.token_set);
}

#[test]
fn install_needs_the_package_description() {
    assert_eq!(admit_install(true), Ok(()));
    assert_eq!(admit_install(false), Err("Bot files not found".to_string()));
}

#[test]
fn install_reports() {
    assert_eq!(
        install_bot_dependencies(&finished(true, "added 90 packages", "")),
        Ok("Dependencies installed successfully".to_string())
    );
    assert_eq!(
        install_bot_dependencies(&finished(false, "", "npm ERR! code E404")),
        Err("npm install failed: npm ERR! code E404".to_string())
    );
    assert_eq!(
        install_bot_dependencies(&not_run("program not found")),
        Err("Failed to run npm install: program not found".to_string())
    );
}

#[test]
fn removal_with_nothing_there() {
    assert_eq!(clear_all_data(&vec![]), "No data to delete found");
}

#[test]
fn removal_lists_what_was_removed() {
    assert_eq!(clear_all_data(&vec![DataItem::Logs]), "Deleted: Logs");
    assert_eq!(
        clear_all_data(&data_items()),
        "Deleted: Dokumenten-Config, Bot-Config, Settings, Logs"
    );
    assert_eq!(
        clear_all_data(&vec![DataItem::WorkerConfig, DataItem::Settings]),
        "Deleted: Bot-Config, Settings"
    );
}

#[test]
fn items_are_removed_in_order_from_their_files() {
    let items = data_items();
    assert_eq!(
        items,
        vec![DataItem::AppConfig, DataItem::WorkerConfig, DataItem::Settings, DataItem::Logs]
    );
    let l = layout_in("/data/app");
    assert_eq!(DataItem::AppConfig.file(&l), l.config_file);
    assert_eq!(DataItem::WorkerConfig.file(&l), l.worker_config);
    assert_eq!(DataItem::Settings.file(&l), l.settings_file);
    assert_eq!(DataItem::Logs.file(&l), l.log_file);
    assert_eq!(DataItem::AppConfig.label(), "Dokumenten-Config");
    assert_eq!(DataItem::WorkerConfig.label(), "Bot-Config");
    assert_eq!(DataItem::Settings.label(), "Settings");
    assert_eq!(DataItem::Logs.label(), "Logs");
}
