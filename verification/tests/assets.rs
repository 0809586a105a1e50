use bot_supervisor::assets::bundle_candidates;
use bot_supervisor::assets::choose_bundle;
use bot_supervisor::assets::copy_failure;
use bot_supervisor::assets::directory_failure;
use bot_supervisor::assets::first_run;
use bot_supervisor::assets::FirstRun;
use bot_supervisor::assets::skips_entry;
use bot_supervisor::assets::Candidate;
use bot_supervisor::command::install_command;
use bot_supervisor::command::worker_command;
use bot_supervisor::command::Platform;
use bot_supervisor::paths::layout_in;
use bot_supervisor::plan::stage_request;
use bot_supervisor::plan::StageRequest;
use bot_supervisor::supervisor::StartStage;
use std::path::Path;

fn joined(base: &str, names: &[&str]) -> String {
    let mut p = Path::new(base).to_path_buf();
    for n in names {
        p = p.join(n);
    }
    p.to_string_lossy().into_owned()
}

fn near(exe: &str, names: &[&str]) -> Candidate {
    Candidate { dir: joined(exe, names), needs_entry_point: true }
}

#[test]
fn dependency_directory_and_config_are_not_copied() {
    assert!(skips_entry("node_modules", true));
    assert!(skips_entry("config.json", false));
}

#[test]
fn everything_else_is_copied() {
    assert!(!skips_entry("node_modules", false));
    assert!(!skips_entry("config.json", true));
    assert!(!skips_entry("index.js", false));
    assert!(!skips_entry("commands", true));
    assert!(!skips_entry("", true));
    assert!(!skips_entry("Node_Modules", true));
}

#[test]
fn bundle_is_searched_in_resources_first() {
    let list = bundle_candidates(Some("/opt/app/resources"), Some("/opt/app/bin"));
    assert_eq!(
        list,
        vec![
            Candidate { dir: joined("/opt/app/resources", &["bot"]), needs_entry_point: false },
            near("/opt/app/bin", &["bot"]),
            near("/opt/app/bin", &["_up_", "bot"]),
            near("/opt/app/bin", &["..", "bot"]),
            near("/opt/app/bin", &["..", "..", "bot"]),
            near("/opt/app/bin", &["..", "Resources", "bot"]),
        ]
    );
}

#[test]
fn bundle_search_without_known_directories() {
    assert_eq!(bundle_candidates(None, None), vec![]);
    assert_eq!(bundle_candidates(None, Some("/x")).len(), 5);
    assert_eq!(
        bundle_candidates(Some("/r"), None),
        vec![Candidate { dir: joined("/r", &["bot"]), needs_entry_point: false }]
    );
}

#[test]
fn first_bundle_found_is_chosen() {
    assert_eq!(choose_bundle(&vec![]), None);
    assert_eq!(choose_bundle(&vec![false, false]), None);
    assert_eq!(choose_bundle(&vec![true]), Some(0));
    assert_eq!(choose_bundle(&vec![false, true, true]), Some(1));
    assert_eq!(choose_bundle(&vec![false, false, false, false, false, true]), Some(5));
}

#[test]
fn each_stage_asks_for_its_own() {
    let l = layout_in("/data/app");
    let p = Platform::Unix;
    assert_eq!(
        stage_request(StartStage::EntryPoint, &l, p),
        StageRequest::Probe { path: l.entry_point.clone() }
    );
    assert_eq!(
        stage_request(StartStage::ConfigFile, &l, p),
        StageRequest::Probe { path: l.config_file.clone() }
    );
    assert_eq!(
        stage_request(StartStage::ReadConfig, &l, p),
        StageRequest::ReadConfig { path: l.config_file.clone() }
    );
    assert_eq!(
        stage_request(StartStage::DependencyDir, &l, p),
        StageRequest::Probe { path: l.modules_dir.clone() }
    );
    assert_eq!(
        stage_request(StartStage::DependencyMarker, &l, p),
        StageRequest::Probe { path: l.modules_marker.clone() }
    );
    assert_eq!(
        stage_request(StartStage::Install, &l, p),
        StageRequest::Install { command: install_command(p, true), dir: l.bot_dir.clone() }
    );
    assert_eq!(
        stage_request(StartStage::Sync, &l, p),
        StageRequest::CopyFile { from: l.config_file.clone(), to: l.worker_config.clone() }
    );
    assert_eq!(
        stage_request(StartStage::Spawn, &l, p),
        StageRequest::Spawn {
            command: worker_command(p),
            dir: l.bot_dir.clone(),
            discard_output: true
        }
    );
}

#[test]
fn stage_requests_follow_the_platform() {
    let l = layout_in("C:\\data");
    match stage_request(StartStage::Install, &l, Platform::Windows) {
        StageRequest::Install { command, .. } => {
            assert_eq!(command.program, "cmd");
            assert!(command.hide_window);
            assert_eq!(command.args, vec!["/C", "npm", "install", "--production"]);
        }
        other => panic!("unexpected request {:?}", other),
    }
    match stage_request(StartStage::Spawn, &l, Platform::Windows) {
        StageRequest::Spawn { command, discard_output, .. } => {
            assert!(command.hide_window);
            assert!(discard_output);
        }
        other => panic!("unexpected request {:?}", other),
    }
}

#[test]
fn an_installed_worker_is_left_alone() {
    assert_eq!(first_run(true, &vec![]), FirstRun::NothingToDo);
    assert_eq!(first_run(true, &vec![true, true]), FirstRun::NothingToDo);
    assert_eq!(first_run(true, &vec![false, false]), FirstRun::NothingToDo);
}

#[test]
fn a_missing_worker_is_copied_from_the_first_bundle_found() {
    assert_eq!(first_run(false, &vec![true]), FirstRun::CopyFrom { candidate: 0 });
    assert_eq!(first_run(false, &vec![false, true, true]), FirstRun::CopyFrom { candidate: 1 });
    assert_eq!(
        first_run(false, &vec![false, false, false, false, false, true]),
        FirstRun::CopyFrom { candidate: 5 }
    );
}

#[test]
fn a_missing_worker_without_a_bundle_cannot_be_installed() {
    assert_eq!(first_run(false, &vec![]), FirstRun::NoBundle);
    assert_eq!(first_run(false, &vec![false, false]), FirstRun::NoBundle);
}

#[test]
fn first_run_failure_messages() {
    assert_eq!(
        directory_failure("Permission denied"),
        "Failed to create bot directory: Permission denied"
    );
    assert_eq!(copy_failure("disk full"), "Failed to copy bot files: disk full");
}
