use indexmap::IndexMap;

use ufbt::json::JsonValue;
use ufbt::paths::{Paths, Platform};
use ufbt::sdk::deploy_plan::{SdkAction, SdkEvent, SdkStage};
use ufbt::sdk::{DeployTask, SdkDeployer, SdkError, UpdateChannel};
use ufbt::state::State;
use ufbt::LogLevel;

fn deployer() -> SdkDeployer {
    SdkDeployer::new(Paths::new("/ufbt-home", None, "/work", Platform::Unix))
}

fn metadata(version: &str) -> IndexMap<String, String> {
    let mut m = IndexMap::new();
    m.insert("mode".to_owned(), "channel".to_owned());
    m.insert("channel".to_owned(), "release".to_owned());
    m.insert("version".to_owned(), version.to_owned());
    m
}

fn recorded_state(target: &str, version: &str) -> State {
    State::new(vec![
        ("hw_target".to_owned(), JsonValue::String(target.to_owned())),
        ("version".to_owned(), JsonValue::String(version.to_owned())),
    ])
}

fn task(force: bool) -> DeployTask {
    DeployTask::channel(UpdateChannel::Release)
        .hw_target("f7")
        .force(force)
        .build()
}

fn log_line(action: &SdkAction) -> Option<(LogLevel, String)> {
    match action {
        SdkAction::Log { level, text } => Some((*level, text.clone())),
        _ => None,
    }
}

/// Runs the deployer up to the fetch, answering as a machine holding `state` would.
fn until_fetch(
    deployer: &SdkDeployer,
    task: &DeployTask,
    dir_exists: bool,
    state: Option<State>,
) -> (SdkStage, Vec<SdkAction>) {
    let (stage, actions) = deployer.deploy_step(task, SdkStage::Start, SdkEvent::Begin);
    assert_eq!(
        log_line(&actions[0]),
        Some((LogLevel::Info, "Deploying SDK for f7".to_owned()))
    );
    assert!(matches!(actions[1], SdkAction::Load));
    let (stage, actions) =
        deployer.deploy_step(task, stage, SdkEvent::Loaded(Ok(metadata("1.2.0"))));
    assert_eq!(
        log_line(&actions[0]),
        Some((LogLevel::Info, "uFBT SDK dir: /ufbt-home/current".to_owned()))
    );
    if task.force() {
        return (stage, actions);
    }
    assert!(matches!(&actions[1], SdkAction::CheckDir(dir) if dir == "/ufbt-home/current"));
    let (stage, actions) = deployer.deploy_step(task, stage, SdkEvent::DirExists(dir_exists));
    if !dir_exists {
        return (stage, actions);
    }
    assert!(matches!(
        &actions[0],
        SdkAction::ReadState(path) if path == "/ufbt-home/current/ufbt_state.json"
    ));
    deployer.deploy_step(task, stage, SdkEvent::StateRead(state))
}

#[test]
fn an_up_to_date_sdk_is_kept() {
    let d = deployer();
    let t = task(false);
    let (stage, actions) = until_fetch(&d, &t, true, Some(recorded_state("f7", "1.2.0")));
    assert!(matches!(stage, SdkStage::Done));
    assert_eq!(actions.len(), 2);
    assert_eq!(
        log_line(&actions[0]),
        Some((LogLevel::Info, "SDK is up-to-date".to_owned()))
    );
    assert!(matches!(actions[1], SdkAction::Finish(true)));
}

#[test]
fn a_forced_deployment_fetches_without_looking() {
    let d = deployer();
    let t = task(true);
    let (stage, actions) = until_fetch(&d, &t, true, None);
    assert!(matches!(stage, SdkStage::Fetching { .. }));
    assert_eq!(actions.len(), 2);
    assert!(matches!(&actions[1], SdkAction::Fetch(target) if target == "f7"));
}

#[test]
fn an_unknown_version_is_replaced() {
    let d = deployer();
    let t = task(false);
    let (stage, actions) = until_fetch(&d, &t, true, Some(recorded_state("f7", "unknown")));
    assert!(matches!(stage, SdkStage::Fetching { .. }));
    assert_eq!(
        log_line(&actions[0]),
        Some((
            LogLevel::Info,
            "Cannot determine current SDK version, updating".to_owned()
        ))
    );
    assert!(matches!(&actions[1], SdkAction::Fetch(target) if target == "f7"));
}

#[test]
fn a_bundle_that_cannot_be_fetched_is_logged_and_touches_nothing() {
    let d = deployer();
    let t = task(false);
    let (stage, _) = until_fetch(&d, &t, false, None);
    let (stage, actions) = d.deploy_step(
        &t,
        stage,
        SdkEvent::Fetched(Err(SdkError::SdkBundleNotFound {
            target: "f7".to_owned(),
        })),
    );
    assert!(matches!(stage, SdkStage::Done));
    assert_eq!(actions.len(), 2);
    assert_eq!(
        log_line(&actions[0]),
        Some((
            LogLevel::Error,
            "Failed to fetch SDK for f7: SDK bundle not found for f7".to_owned()
        ))
    );
    assert!(matches!(actions[1], SdkAction::Finish(false)));
}

#[test]
fn a_fetched_bundle_replaces_the_sdk_and_records_the_state_last() {
    let d = deployer();
    let t = task(false);
    let (stage, _) = until_fetch(&d, &t, true, Some(recorded_state("f7", "1.1.0")));
    let (stage, actions) =
        d.deploy_step(&t, stage, SdkEvent::Fetched(Ok("/dl/sdk.zip".to_owned())));
    assert_eq!(actions.len(), 1);
    assert!(matches!(&actions[0], SdkAction::RemoveDir(dir) if dir == "/ufbt-home/current"));

    let (stage, actions) = d.deploy_step(&t, stage, SdkEvent::Completed(Ok(())));
    assert_eq!(
        log_line(&actions[0]),
        Some((LogLevel::Info, "Deploying SDK".to_owned()))
    );
    assert!(matches!(
        &actions[1],
        SdkAction::Extract { archive, dir } if archive == "/dl/sdk.zip" && dir == "/ufbt-home/current"
    ));

    let (stage, actions) = d.deploy_step(&t, stage, SdkEvent::Completed(Ok(())));
    assert_eq!(actions.len(), 1);
    match &actions[0] {
        SdkAction::WriteState { state, path } => {
            assert_eq!(path, "/ufbt-home/current/ufbt_state.json");
            assert_eq!(state.hw_target(), Some("f7"));
            assert_eq!(state.version(), Some("1.2.0"));
            assert_eq!(state.mode(), Some("channel"));
        }
        other => panic!("expected a state write, got {other:?}"),
    }

    let (stage, actions) = d.deploy_step(&t, stage, SdkEvent::Completed(Ok(())));
    assert!(matches!(stage, SdkStage::Done));
    assert_eq!(
        log_line(&actions[0]),
        Some((LogLevel::Info, "SDK deployed.".to_owned()))
    );
    assert!(matches!(actions[1], SdkAction::Finish(true)));
}

#[test]
fn a_failed_extraction_stops_before_the_state_is_written() {
    let d = deployer();
    let t = task(true);
    let (stage, _) = until_fetch(&d, &t, false, None);
    let (stage, _) = d.deploy_step(&t, stage, SdkEvent::Fetched(Ok("/dl/sdk.zip".to_owned())));
    let (stage, _) = d.deploy_step(&t, stage, SdkEvent::Completed(Ok(())));
    let (stage, actions) = d.deploy_step(
        &t,
        stage,
        SdkEvent::Completed(Err(SdkError::InvalidFileUrl)),
    );
    assert!(matches!(stage, SdkStage::Done));
    assert_eq!(actions.len(), 1);
    assert!(matches!(actions[0], SdkAction::Fail(SdkError::InvalidFileUrl)));
}

#[test]
fn a_loader_that_cannot_load_stops_the_deployment() {
    let d = deployer();
    let t = task(false);
    let (stage, _) = d.deploy_step(&t, SdkStage::Start, SdkEvent::Begin);
    let (stage, actions) =
        d.deploy_step(&t, stage, SdkEvent::Loaded(Err(SdkError::LoaderNotInitialized)));
    assert!(matches!(stage, SdkStage::Done));
    assert!(matches!(actions[0], SdkAction::Fail(SdkError::LoaderNotInitialized)));
}

#[test]
fn an_event_out_of_turn_changes_nothing() {
    let d = deployer();
    let t = task(false);
    let (stage, actions) = d.deploy_step(&t, SdkStage::Start, SdkEvent::DirExists(true));
    assert!(matches!(stage, SdkStage::Start));
    assert!(actions.is_empty());
}
