//! The course of an SDK deployment: loading the loader, looking at what is deployed,
//! fetching the bundle, replacing the SDK directory, unpacking and recording the state, in
//! that order, decided step by step from what each step learned.
use vstd::prelude::*;
use vstd::string::*;
use indexmap::IndexMap;
use crate::foreign::index_map_entries;
use crate::json::JsonValue;
use crate::log::LogLevel;
use crate::paths::{spec_join, PathsView, STATE_FILE_NAME};
use crate::state::State;
use crate::text::concat;
use super::deploy_task::{spec_or_null, DeployTask, DeployTaskView};
use super::deployer::{
    deployed_state, or_null, spec_check_sdk, spec_deployed_state, spec_skips_deployment, text_entries,
    SdkCheck, SdkDeployer,
};
use super::error::spec_sdk_message;
use super::SdkError;

verus! {

/// Where an SDK deployment stands: which answer it waits for, and what it has learned that
/// later steps need.
#[derive(Debug)]
pub enum SdkStage {
    /// Nothing has been done yet.
    Start,
    /// The loader was asked to load; waits for [`SdkEvent::Loaded`].
    Loading,
    /// The SDK directory was looked for; waits for [`SdkEvent::DirExists`].
    CheckingDir {
        /// Description of the deployment, as the loaded loader gives it.
        metadata: IndexMap<String, String>,
    },
    /// The deployment state was read; waits for [`SdkEvent::StateRead`].
    ReadingState {
        /// Description of the deployment, as the loaded loader gives it.
        metadata: IndexMap<String, String>,
    },
    /// The bundle was asked for; waits for [`SdkEvent::Fetched`].
    Fetching {
        /// Description of the deployment, as the loaded loader gives it.
        metadata: IndexMap<String, String>,
    },
    /// The SDK directory is being removed; waits for [`SdkEvent::Completed`].
    Removing {
        /// Description of the deployment, as the loaded loader gives it.
        metadata: IndexMap<String, String>,
        /// Path of the fetched bundle.
        component: String,
    },
    /// The bundle is being unpacked; waits for [`SdkEvent::Completed`].
    Extracting {
        /// State to record once the bundle is unpacked.
        state: State,
    },
    /// The state is being written; waits for [`SdkEvent::Completed`].
    Writing,
    /// The deployment is over.
    Done,
}

/// What a step of an SDK deployment learned.
#[derive(Debug)]
pub enum SdkEvent {
    /// The deployment begins.
    Begin,
    /// The loader for the task was built and loaded: its description, or why it could not.
    Loaded(Result<IndexMap<String, String>, SdkError>),
    /// Whether the SDK directory exists.
    DirExists(bool),
    /// The deployment state found in the SDK directory, if one could be read.
    StateRead(Option<State>),
    /// The path of the fetched bundle, or why it could not be fetched.
    Fetched(Result<String, SdkError>),
    /// A removal, an unpacking or a write finished, or failed with the error.
    Completed(Result<(), SdkError>),
}

/// One thing an SDK deployment asks to be done.
#[derive(Debug)]
pub enum SdkAction {
    /// Write `text` to the log at `level`.
    Log { level: LogLevel, text: String },
    /// Build the loader for the task and load it. Answered by [`SdkEvent::Loaded`].
    Load,
    /// Look whether the directory at the path exists. Answered by [`SdkEvent::DirExists`].
    CheckDir(String),
    /// Read the deployment state from the file at the path; a file that is missing or
    /// cannot be read gives none. Answered by [`SdkEvent::StateRead`].
    ReadState(String),
    /// Fetch the bundle the loaded loader offers for the target. Answered by
    /// [`SdkEvent::Fetched`].
    Fetch(String),
    /// Remove the directory at the path with everything in it, if it exists. Answered by
    /// [`SdkEvent::Completed`].
    RemoveDir(String),
    /// Unpack the zip archive `archive` into `dir`, reporting progress. Answered by
    /// [`SdkEvent::Completed`].
    Extract { archive: String, dir: String },
    /// Write `state` to the file at `path`. Answered by [`SdkEvent::Completed`].
    WriteState { state: State, path: String },
    /// The deployment stops with the error.
    Fail(SdkError),
    /// The deployment is over; `deployed` tells whether the SDK is in place.
    Finish(bool),
}

/// A deployment state as its members' names and string values, `None` for a null; `None`
/// as a whole when a member is neither a string nor null.
pub open spec fn state_text(values: Seq<(String, JsonValue)>) -> Option<Seq<(Seq<char>, Option<Seq<char>>)>> {
    if forall|i: int| 0 <= i < values.len() ==> (values[i].1 is String || values[i].1 is Null) {
        Some(text_entries(values))
    } else {
        None
    }
}

/// What an [`SdkStage`] holds, as text.
pub enum SdkStageView {
    /// Nothing has been done yet.
    Start,
    /// Waits for the loader to load.
    Loading,
    /// Waits to learn whether the SDK directory exists.
    CheckingDir { metadata: Seq<(Seq<char>, Seq<char>)> },
    /// Waits for the deployment state.
    ReadingState { metadata: Seq<(Seq<char>, Seq<char>)> },
    /// Waits for the bundle.
    Fetching { metadata: Seq<(Seq<char>, Seq<char>)> },
    /// Waits for the SDK directory to be removed.
    Removing { metadata: Seq<(Seq<char>, Seq<char>)>, component: Seq<char> },
    /// Waits for the bundle to be unpacked.
    Extracting { state: Option<Seq<(Seq<char>, Option<Seq<char>>)>> },
    /// Waits for the state to be written.
    Writing,
    /// The deployment is over.
    Done,
}

impl View for SdkStage {
    type V = SdkStageView;

    open spec fn view(&self) -> SdkStageView {
        match self {
            SdkStage::Start => SdkStageView::Start,
            SdkStage::Loading => SdkStageView::Loading,
            SdkStage::CheckingDir { metadata } => SdkStageView::CheckingDir {
                metadata: index_map_entries(*metadata),
            },
            SdkStage::ReadingState { metadata } => SdkStageView::ReadingState {
                metadata: index_map_entries(*metadata),
            },
            SdkStage::Fetching { metadata } => SdkStageView::Fetching {
                metadata: index_map_entries(*metadata),
            },
            SdkStage::Removing { metadata, component } => SdkStageView::Removing {
                metadata: index_map_entries(*metadata),
                component: component@,
            },
            SdkStage::Extracting { state } => SdkStageView::Extracting { state: state_text(state@) },
            SdkStage::Writing => SdkStageView::Writing,
            SdkStage::Done => SdkStageView::Done,
        }
    }
}

/// What an [`SdkEvent`] reports, as text.
pub enum SdkEventView {
    /// The deployment begins.
    Begin,
    /// The loader's description, or why it could not be loaded.
    Loaded(Result<Seq<(Seq<char>, Seq<char>)>, SdkError>),
    /// Whether the SDK directory exists.
    DirExists(bool),
    /// The deployment state read, if any.
    StateRead(Option<Seq<(String, JsonValue)>>),
    /// The path of the fetched bundle, or why it could not be fetched.
    Fetched(Result<Seq<char>, SdkError>),
    /// A removal, an unpacking or a write finished, or failed with the error.
    Completed(Result<(), SdkError>),
}

impl View for SdkEvent {
    type V = SdkEventView;

    open spec fn view(&self) -> SdkEventView {
        match self {
            SdkEvent::Begin => SdkEventView::Begin,
            SdkEvent::Loaded(r) => SdkEventView::Loaded(
                match r {
                    Ok(m) => Ok(index_map_entries(*m)),
                    Err(e) => Err(*e),
                },
            ),
            SdkEvent::DirExists(b) => SdkEventView::DirExists(*b),
            SdkEvent::StateRead(s) => SdkEventView::StateRead(
                match s {
                    Some(s) => Some(s@),
                    None => None,
                },
            ),
            SdkEvent::Fetched(r) => SdkEventView::Fetched(
                match r {
                    Ok(p) => Ok(p@),
                    Err(e) => Err(*e),
                },
            ),
            SdkEvent::Completed(r) => SdkEventView::Completed(*r),
        }
    }
}

/// What an [`SdkAction`] asks, as text.
pub enum SdkActionView {
    /// Write the text to the log at the level.
    Log { level: LogLevel, text: Seq<char> },
    /// Build and load the loader.
    Load,
    /// Look whether the directory exists.
    CheckDir(Seq<char>),
    /// Read the deployment state.
    ReadState(Seq<char>),
    /// Fetch the bundle for the target.
    Fetch(Seq<char>),
    /// Remove the directory if it exists.
    RemoveDir(Seq<char>),
    /// Unpack the archive into the directory.
    Extract { archive: Seq<char>, dir: Seq<char> },
    /// Write the state to the file.
    WriteState { state: Option<Seq<(Seq<char>, Option<Seq<char>>)>>, path: Seq<char> },
    /// Stop with the error.
    Fail(SdkError),
    /// End, telling whether the SDK is in place.
    Finish(bool),
}

/// What an action asks, as text.
pub open spec fn sdk_action_view(a: SdkAction) -> SdkActionView {
    match a {
        SdkAction::Log { level, text } => SdkActionView::Log { level, text: text@ },
        SdkAction::Load => SdkActionView::Load,
        SdkAction::CheckDir(p) => SdkActionView::CheckDir(p@),
        SdkAction::ReadState(p) => SdkActionView::ReadState(p@),
        SdkAction::Fetch(t) => SdkActionView::Fetch(t@),
        SdkAction::RemoveDir(p) => SdkActionView::RemoveDir(p@),
        SdkAction::Extract { archive, dir } => SdkActionView::Extract { archive: archive@, dir: dir@ },
        SdkAction::WriteState { state, path } => SdkActionView::WriteState {
            state: state_text(state@),
            path: path@,
        },
        SdkAction::Fail(e) => SdkActionView::Fail(e),
        SdkAction::Finish(b) => SdkActionView::Finish(b),
    }
}

/// What a list of actions asks, in order.
pub open spec fn sdk_actions_view(actions: Seq<SdkAction>) -> Seq<SdkActionView> {
    actions.map_values(|a: SdkAction| sdk_action_view(a))
}

/// Directory the SDK is deployed into.
pub open spec fn spec_sdk_dir(paths: PathsView) -> Seq<char> {
    spec_join(paths.state_dir, "current"@, paths.platform)
}

/// File the deployment state is written to.
pub open spec fn spec_sdk_state_file(paths: PathsView) -> Seq<char> {
    spec_join(spec_sdk_dir(paths), STATE_FILE_NAME@, paths.platform)
}

/// Target the bundle is fetched for: the task's hardware target, or empty text.
pub open spec fn spec_fetch_target(task: DeployTaskView) -> Seq<char> {
    match task.hw_target {
        Some(t) => t,
        None => Seq::empty(),
    }
}

/// The error-level line logged when the bundle cannot be fetched, `error_text` being the
/// error's message.
pub open spec fn spec_fetch_failure_line(task: DeployTaskView, error_text: Seq<char>) -> Seq<char> {
    "Failed to fetch SDK for "@ + spec_or_null(task.hw_target) + ": "@ + error_text
}

/// Whether `text` is the message of `error` wherever the error's message is stated.
pub open spec fn is_error_text(error: SdkError, text: Seq<char>) -> bool {
    spec_sdk_message(error) matches Some(m) ==> text == m
}

/// The message of the error a failed fetch reports, where it is stated; empty text for
/// any other event.
pub open spec fn spec_error_text(event: SdkEventView) -> Seq<char> {
    match event {
        SdkEventView::Fetched(Err(e)) => match spec_sdk_message(e) {
            Some(m) => m,
            None => Seq::empty(),
        },
        _ => Seq::empty(),
    }
}

/// One step of an SDK deployment for `task` in the home directory `paths`: from the stage
/// and what the last step learned, the next stage and the actions to take, in order.
/// `error_text` is the message of the error a failed fetch reports.
///
/// The deployment announces the task and loads the loader. It then names the SDK
/// directory and, unless the task forces a deployment, looks for the directory and, where
/// it exists, reads the state there: an SDK found up to date ends the deployment at once.
/// Otherwise the bundle is fetched; a bundle that cannot be fetched is logged as an error
/// and ends the deployment without touching the SDK directory. Only a fetched bundle leads
/// to removing the SDK directory, unpacking the bundle into it and, once unpacked, writing
/// the state recorded for the deployment. Any other failure stops the deployment with its
/// error. An event that does not answer what the stage waits for changes nothing.
pub open spec fn spec_sdk_deploy_step(
    paths: PathsView,
    task: DeployTaskView,
    stage: SdkStageView,
    event: SdkEventView,
    error_text: Seq<char>,
) -> (SdkStageView, Seq<SdkActionView>) {
    let dir = spec_sdk_dir(paths);
    let fetch = SdkActionView::Fetch(spec_fetch_target(task));
    match stage {
        SdkStageView::Start => match event {
            SdkEventView::Begin => (
                SdkStageView::Loading,
                seq![
                    SdkActionView::Log {
                        level: LogLevel::Info,
                        text: "Deploying SDK for "@ + spec_or_null(task.hw_target),
                    },
                    SdkActionView::Load,
                ],
            ),
            _ => (stage, Seq::empty()),
        },
        SdkStageView::Loading => match event {
            SdkEventView::Loaded(Ok(metadata)) => {
                let announce = SdkActionView::Log { level: LogLevel::Info, text: "uFBT SDK dir: "@ + dir };
                if task.force {
                    (SdkStageView::Fetching { metadata }, seq![announce, fetch])
                } else {
                    (SdkStageView::CheckingDir { metadata }, seq![announce, SdkActionView::CheckDir(dir)])
                }
            },
            SdkEventView::Loaded(Err(e)) => (SdkStageView::Done, seq![SdkActionView::Fail(e)]),
            _ => (stage, Seq::empty()),
        },
        SdkStageView::CheckingDir { metadata } => match event {
            SdkEventView::DirExists(exists) => if exists {
                (
                    SdkStageView::ReadingState { metadata },
                    seq![SdkActionView::ReadState(spec_sdk_state_file(paths))],
                )
            } else {
                (SdkStageView::Fetching { metadata }, seq![fetch])
            },
            _ => (stage, Seq::empty()),
        },
        SdkStageView::ReadingState { metadata } => match event {
            SdkEventView::StateRead(state) => match spec_check_sdk(state, task.hw_target, metadata) {
                SdkCheck::Undeterminable => (
                    SdkStageView::Fetching { metadata },
                    seq![
                        SdkActionView::Log {
                            level: LogLevel::Info,
                            text: "Cannot determine current SDK version, updating"@,
                        },
                        fetch,
                    ],
                ),
                SdkCheck::UpToDate => (
                    SdkStageView::Done,
                    seq![
                        SdkActionView::Log { level: LogLevel::Info, text: "SDK is up-to-date"@ },
                        SdkActionView::Finish(true),
                    ],
                ),
                SdkCheck::Outdated => (SdkStageView::Fetching { metadata }, seq![fetch]),
            },
            _ => (stage, Seq::empty()),
        },
        SdkStageView::Fetching { metadata } => match event {
            SdkEventView::Fetched(Ok(component)) => (
                SdkStageView::Removing { metadata, component },
                seq![SdkActionView::RemoveDir(dir)],
            ),
            SdkEventView::Fetched(Err(_)) => (
                SdkStageView::Done,
                seq![
                    SdkActionView::Log {
                        level: LogLevel::Error,
                        text: spec_fetch_failure_line(task, error_text),
                    },
                    SdkActionView::Finish(false),
                ],
            ),
            _ => (stage, Seq::empty()),
        },
        SdkStageView::Removing { metadata, component } => match event {
            SdkEventView::Completed(Ok(())) => (
                SdkStageView::Extracting { state: Some(spec_deployed_state(task.hw_target, metadata)) },
                seq![
                    SdkActionView::Log { level: LogLevel::Info, text: "Deploying SDK"@ },
                    SdkActionView::Extract { archive: component, dir },
                ],
            ),
            SdkEventView::Completed(Err(e)) => (SdkStageView::Done, seq![SdkActionView::Fail(e)]),
            _ => (stage, Seq::empty()),
        },
        SdkStageView::Extracting { state } => match event {
            SdkEventView::Completed(Ok(())) => (
                SdkStageView::Writing,
                seq![SdkActionView::WriteState { state, path: spec_sdk_state_file(paths) }],
            ),
            SdkEventView::Completed(Err(e)) => (SdkStageView::Done, seq![SdkActionView::Fail(e)]),
            _ => (stage, Seq::empty()),
        },
        SdkStageView::Writing => match event {
            SdkEventView::Completed(Ok(())) => (
                SdkStageView::Done,
                seq![
                    SdkActionView::Log { level: LogLevel::Info, text: "SDK deployed."@ },
                    SdkActionView::Finish(true),
                ],
            ),
            SdkEventView::Completed(Err(e)) => (SdkStageView::Done, seq![SdkActionView::Fail(e)]),
            _ => (stage, Seq::empty()),
        },
        SdkStageView::Done => (stage, Seq::empty()),
    }
}

impl SdkDeployer {
    /// One step of deploying the SDK `task` describes, as [`spec_sdk_deploy_step`] says:
    /// the next stage, and the actions to carry out before answering it with the next
    /// event.
    pub fn deploy_step(&self, task: &DeployTask, stage: SdkStage, event: SdkEvent) -> (r: (SdkStage, Vec<SdkAction>))
        ensures
            exists|error_text: Seq<char>| #![trigger spec_sdk_deploy_step(self@, task@, stage@, event@, error_text)] {
                &&& (event@ matches SdkEventView::Fetched(Err(e)) ==> is_error_text(e, error_text))
                &&& (r.0@, sdk_actions_view(r.1@)) == spec_sdk_deploy_step(
                    self@,
                    task@,
                    stage@,
                    event@,
                    error_text,
                )
            },
    {
        let ghost stage_view = stage@;
        let ghost event_view = event@;
        let paths = self.paths();
        let fetch_target = match task.hw_target() {
            Some(t) => t.to_owned(),
            None => String::new(),
        };
        proof {
            assert(fetch_target@ == spec_fetch_target(task@));
        }
        match stage {
            SdkStage::Start => match event {
                SdkEvent::Begin => {
                    let line = concat("Deploying SDK for ", or_null(task.hw_target()));
                    let actions = vec![SdkAction::Log { level: LogLevel::Info, text: line }, SdkAction::Load];
                    let next = SdkStage::Loading;
                    proof {
                        let expected = spec_sdk_deploy_step(self@, task@, stage_view, event_view, spec_error_text(event_view));
                        assert(sdk_actions_view(actions@) =~= expected.1);
                        assert(next@ == expected.0);
                    }
                    (next, actions)
                },
                _ => {
                    let actions: Vec<SdkAction> = Vec::new();
                    let next = SdkStage::Start;
                    proof {
                        let expected = spec_sdk_deploy_step(self@, task@, stage_view, event_view, spec_error_text(event_view));
                        assert(sdk_actions_view(actions@) =~= expected.1);
                        assert(next@ == expected.0);
                    }
                    (next, actions)
                },
            },
            SdkStage::Loading => match event {
                SdkEvent::Loaded(Ok(metadata)) => {
                    let dir = paths.current_sdk_dir();
                    let line = concat("uFBT SDK dir: ", dir.as_str());
                    let announce = SdkAction::Log { level: LogLevel::Info, text: line };
                    if task.force() {
                        let actions = vec![announce, SdkAction::Fetch(fetch_target)];
                        let next = SdkStage::Fetching { metadata };
                        proof {
                            let expected = spec_sdk_deploy_step(self@, task@, stage_view, event_view, spec_error_text(event_view));
                            assert(sdk_actions_view(actions@) =~= expected.1);
                            assert(next@ == expected.0);
                        }
                        (next, actions)
                    } else {
                        let actions = vec![announce, SdkAction::CheckDir(dir)];
                        let next = SdkStage::CheckingDir { metadata };
                        proof {
                            let expected = spec_sdk_deploy_step(self@, task@, stage_view, event_view, spec_error_text(event_view));
                            assert(sdk_actions_view(actions@) =~= expected.1);
                            assert(next@ == expected.0);
                        }
                        (next, actions)
                    }
                },
                SdkEvent::Loaded(Err(e)) => {
                    let actions = vec![SdkAction::Fail(e)];
                    let next = SdkStage::Done;
                    proof {
                        let expected = spec_sdk_deploy_step(self@, task@, stage_view, event_view, spec_error_text(event_view));
                        assert(sdk_actions_view(actions@) =~= expected.1);
                        assert(next@ == expected.0);
                    }
                    (next, actions)
                },
                _ => {
                    let actions: Vec<SdkAction> = Vec::new();
                    let next = SdkStage::Loading;
                    proof {
                        let expected = spec_sdk_deploy_step(self@, task@, stage_view, event_view, spec_error_text(event_view));
                        assert(sdk_actions_view(actions@) =~= expected.1);
                        assert(next@ == expected.0);
                    }
                    (next, actions)
                },
            },
            SdkStage::CheckingDir { metadata } => match event {
                SdkEvent::DirExists(exists) => {
                    if exists {
                        let actions = vec![SdkAction::ReadState(paths.state_file())];
                        let next = SdkStage::ReadingState { metadata };
                        proof {
                            let expected = spec_sdk_deploy_step(self@, task@, stage_view, event_view, spec_error_text(event_view));
                            assert(sdk_actions_view(actions@) =~= expected.1);
                            assert(next@ == expected.0);
                        }
                        (next, actions)
                    } else {
                        let actions = vec![SdkAction::Fetch(fetch_target)];
                        let next = SdkStage::Fetching { metadata };
                        proof {
                            let expected = spec_sdk_deploy_step(self@, task@, stage_view, event_view, spec_error_text(event_view));
                            assert(sdk_actions_view(actions@) =~= expected.1);
                            assert(next@ == expected.0);
                        }
                        (next, actions)
                    }
                },
                _ => {
                    let actions: Vec<SdkAction> = Vec::new();
                    let next = SdkStage::CheckingDir { metadata };
                    proof {
                        let expected = spec_sdk_deploy_step(self@, task@, stage_view, event_view, spec_error_text(event_view));
                        assert(sdk_actions_view(actions@) =~= expected.1);
                        assert(next@ == expected.0);
                    }
                    (next, actions)
                },
            },
            SdkStage::ReadingState { metadata } => match event {
                SdkEvent::StateRead(state) => {
                    let check = self.check_sdk(state.as_ref(), task, &metadata);
                    match check {
                        SdkCheck::Undeterminable => {
                            let line = "Cannot determine current SDK version, updating".to_owned();
                            let actions = vec![
                                SdkAction::Log { level: LogLevel::Info, text: line },
                                SdkAction::Fetch(fetch_target),
                            ];
                            let next = SdkStage::Fetching { metadata };
                            proof {
                                let expected = spec_sdk_deploy_step(self@, task@, stage_view, event_view, spec_error_text(event_view));
                                assert(sdk_actions_view(actions@) =~= expected.1);
                                assert(next@ == expected.0);
                            }
                            (next, actions)
                        },
                        SdkCheck::UpToDate => {
                            let line = "SDK is up-to-date".to_owned();
                            let actions = vec![
                                SdkAction::Log { level: LogLevel::Info, text: line },
                                SdkAction::Finish(true),
                            ];
                            let next = SdkStage::Done;
                            proof {
                                let expected = spec_sdk_deploy_step(self@, task@, stage_view, event_view, spec_error_text(event_view));
                                assert(sdk_actions_view(actions@) =~= expected.1);
                                assert(next@ == expected.0);
                            }
                            (next, actions)
                        },
                        SdkCheck::Outdated => {
                            let actions = vec![SdkAction::Fetch(fetch_target)];
                            let next = SdkStage::Fetching { metadata };
                            proof {
                                let expected = spec_sdk_deploy_step(self@, task@, stage_view, event_view, spec_error_text(event_view));
                                assert(sdk_actions_view(actions@) =~= expected.1);
                                assert(next@ == expected.0);
                            }
                            (next, actions)
                        },
                    }
                },
                _ => {
                    let actions: Vec<SdkAction> = Vec::new();
                    let next = SdkStage::ReadingState { metadata };
                    proof {
                        let expected = spec_sdk_deploy_step(self@, task@, stage_view, event_view, spec_error_text(event_view));
                        assert(sdk_actions_view(actions@) =~= expected.1);
                        assert(next@ == expected.0);
                    }
                    (next, actions)
                },
            },
            SdkStage::Fetching { metadata } => match event {
                SdkEvent::Fetched(Ok(component)) => {
                    let actions = vec![SdkAction::RemoveDir(paths.current_sdk_dir())];
                    let next = SdkStage::Removing { metadata, component };
                    proof {
                        let expected = spec_sdk_deploy_step(self@, task@, stage_view, event_view, spec_error_text(event_view));
                        assert(sdk_actions_view(actions@) =~= expected.1);
                        assert(next@ == expected.0);
                    }
                    (next, actions)
                },
                SdkEvent::Fetched(Err(e)) => {
                    let message = e.message();
                    let mut line = concat("Failed to fetch SDK for ", or_null(task.hw_target()));
                    line.append(": ");
                    line.append(message.as_str());
                    let actions = vec![
                        SdkAction::Log { level: LogLevel::Error, text: line },
                        SdkAction::Finish(false),
                    ];
                    let next = SdkStage::Done;
                    proof {
                        assert(is_error_text(e, message@));
                        let expected = spec_sdk_deploy_step(self@, task@, stage_view, event_view, message@);
                        assert(sdk_actions_view(actions@) =~= expected.1);
                        assert(next@ == expected.0);
                    }
                    (next, actions)
                },
                _ => {
                    let actions: Vec<SdkAction> = Vec::new();
                    let next = SdkStage::Fetching { metadata };
                    proof {
                        let expected = spec_sdk_deploy_step(self@, task@, stage_view, event_view, spec_error_text(event_view));
                        assert(sdk_actions_view(actions@) =~= expected.1);
                        assert(next@ == expected.0);
                    }
                    (next, actions)
                },
            },
            SdkStage::Removing { metadata, component } => match event {
                SdkEvent::Completed(Ok(())) => {
                    let state = deployed_state(task, &metadata);
                    let actions = vec![
                        SdkAction::Log { level: LogLevel::Info, text: "Deploying SDK".to_owned() },
                        SdkAction::Extract { archive: component, dir: paths.current_sdk_dir() },
                    ];
                    let next = SdkStage::Extracting { state };
                    proof {
                        let expected = spec_sdk_deploy_step(self@, task@, stage_view, event_view, spec_error_text(event_view));
                        assert(sdk_actions_view(actions@) =~= expected.1);
                        assert(next@ == expected.0);
                    }
                    (next, actions)
                },
                SdkEvent::Completed(Err(e)) => {
                    let actions = vec![SdkAction::Fail(e)];
                    let next = SdkStage::Done;
                    proof {
                        let expected = spec_sdk_deploy_step(self@, task@, stage_view, event_view, spec_error_text(event_view));
                        assert(sdk_actions_view(actions@) =~= expected.1);
                        assert(next@ == expected.0);
                    }
                    (next, actions)
                },
                _ => {
                    let actions: Vec<SdkAction> = Vec::new();
                    let next = SdkStage::Removing { metadata, component };
                    proof {
                        let expected = spec_sdk_deploy_step(self@, task@, stage_view, event_view, spec_error_text(event_view));
                        assert(sdk_actions_view(actions@) =~= expected.1);
                        assert(next@ == expected.0);
                    }
                    (next, actions)
                },
            },
            SdkStage::Extracting { state } => match event {
                SdkEvent::Completed(Ok(())) => {
                    let actions = vec![SdkAction::WriteState { state, path: paths.state_file() }];
                    let next = SdkStage::Writing;
                    proof {
                        let expected = spec_sdk_deploy_step(self@, task@, stage_view, event_view, spec_error_text(event_view));
                        assert(sdk_actions_view(actions@) =~= expected.1);
                        assert(next@ == expected.0);
                    }
                    (next, actions)
                },
                SdkEvent::Completed(Err(e)) => {
                    let actions = vec![SdkAction::Fail(e)];
                    let next = SdkStage::Done;
                    proof {
                        let expected = spec_sdk_deploy_step(self@, task@, stage_view, event_view, spec_error_text(event_view));
                        assert(sdk_actions_view(actions@) =~= expected.1);
                        assert(next@ == expected.0);
                    }
                    (next, actions)
                },
                _ => {
                    let actions: Vec<SdkAction> = Vec::new();
                    let next = SdkStage::Extracting { state };
                    proof {
                        let expected = spec_sdk_deploy_step(self@, task@, stage_view, event_view, spec_error_text(event_view));
                        assert(sdk_actions_view(actions@) =~= expected.1);
                        assert(next@ == expected.0);
                    }
                    (next, actions)
                },
            },
            SdkStage::Writing => match event {
                SdkEvent::Completed(Ok(())) => {
                    let actions = vec![
                        SdkAction::Log { level: LogLevel::Info, text: "SDK deployed.".to_owned() },
                        SdkAction::Finish(true),
                    ];
                    let next = SdkStage::Done;
                    proof {
                        let expected = spec_sdk_deploy_step(self@, task@, stage_view, event_view, spec_error_text(event_view));
                        assert(sdk_actions_view(actions@) =~= expected.1);
                        assert(next@ == expected.0);
                    }
                    (next, actions)
                },
                SdkEvent::Completed(Err(e)) => {
                    let actions = vec![SdkAction::Fail(e)];
                    let next = SdkStage::Done;
                    proof {
                        let expected = spec_sdk_deploy_step(self@, task@, stage_view, event_view, spec_error_text(event_view));
                        assert(sdk_actions_view(actions@) =~= expected.1);
                        assert(next@ == expected.0);
                    }
                    (next, actions)
                },
                _ => {
                    let actions: Vec<SdkAction> = Vec::new();
                    let next = SdkStage::Writing;
                    proof {
                        let expected = spec_sdk_deploy_step(self@, task@, stage_view, event_view, spec_error_text(event_view));
                        assert(sdk_actions_view(actions@) =~= expected.1);
                        assert(next@ == expected.0);
                    }
                    (next, actions)
                },
            },
            SdkStage::Done => {
                let actions: Vec<SdkAction> = Vec::new();
                let next = SdkStage::Done;
                proof {
                    let expected = spec_sdk_deploy_step(self@, task@, stage_view, event_view, spec_error_text(event_view));
                    assert(sdk_actions_view(actions@) =~= expected.1);
                    assert(next@ == expected.0);
                }
                (next, actions)
            },
        }
    }
}

/// Whether an action is answered by the next event.
pub open spec fn is_sdk_query(a: SdkActionView) -> bool {
    match a {
        SdkActionView::Load | SdkActionView::CheckDir(_) | SdkActionView::ReadState(_)
        | SdkActionView::Fetch(_) | SdkActionView::RemoveDir(_) | SdkActionView::Extract { .. }
        | SdkActionView::WriteState { .. } => true,
        _ => false,
    }
}

/// Whether an action ends the deployment.
pub open spec fn is_sdk_end(a: SdkActionView) -> bool {
    a is Fail || a is Finish
}

/// Whether a batch of actions is one step of a deployment: a query or the end of the
/// deployment comes last, and nowhere before.
pub open spec fn is_sdk_step_batch(batch: Seq<SdkActionView>) -> bool {
    &&& batch.len() > 0
    &&& is_sdk_query(batch.last()) || is_sdk_end(batch.last())
    &&& forall|i: int| 0 <= i < batch.len() - 1 ==> !is_sdk_query(#[trigger] batch[i]) && !is_sdk_end(batch[i])
}

/// Every step of an SDK deployment is a batch that ends with its only query or with the
/// end of the deployment, and ends it exactly when it moves to [`SdkStageView::Done`]; an
/// event that does not answer the stage asks nothing and leaves the stage as it was.
pub proof fn lemma_sdk_steps(paths: PathsView, task: DeployTaskView, stage: SdkStageView, event: SdkEventView, error_text: Seq<char>)
    ensures
        ({
            let (next, batch) = spec_sdk_deploy_step(paths, task, stage, event, error_text);
            &&& batch.len() == 0 ==> next == stage
            &&& batch.len() > 0 ==> is_sdk_step_batch(batch)
            &&& batch.len() > 0 ==> (next is Done <==> is_sdk_end(batch.last()))
        }),
{
}

/// A bundle that cannot be fetched is reported by exactly one error-level line naming the
/// target and the error, and the deployment ends without the SDK in place: nothing is
/// removed, unpacked or written.
pub proof fn lemma_failed_fetch_touches_nothing(
    paths: PathsView,
    task: DeployTaskView,
    metadata: Seq<(Seq<char>, Seq<char>)>,
    error: SdkError,
    error_text: Seq<char>,
)
    ensures
        spec_sdk_deploy_step(paths, task, SdkStageView::Fetching { metadata }, SdkEventView::Fetched(Err(error)), error_text)
            == (SdkStageView::Done, seq![
                SdkActionView::Log { level: LogLevel::Error, text: spec_fetch_failure_line(task, error_text) },
                SdkActionView::Finish(false),
            ]),
{
}

/// The SDK directory is removed only in answer to a bundle fetched successfully, and is
/// then the only thing asked.
pub proof fn lemma_removal_follows_fetch(
    paths: PathsView,
    task: DeployTaskView,
    stage: SdkStageView,
    event: SdkEventView,
    error_text: Seq<char>,
    i: int,
)
    requires
        0 <= i < spec_sdk_deploy_step(paths, task, stage, event, error_text).1.len(),
        spec_sdk_deploy_step(paths, task, stage, event, error_text).1[i] is RemoveDir,
    ensures
        stage is Fetching,
        event matches SdkEventView::Fetched(Ok(_)),
        spec_sdk_deploy_step(paths, task, stage, event, error_text).1 == seq![
            SdkActionView::RemoveDir(spec_sdk_dir(paths)),
        ],
{
}

/// The bundle is unpacked only once the SDK directory was removed, and the state is
/// written only once the bundle was unpacked: the state written is the one recorded for
/// the task and the loader's description.
pub proof fn lemma_state_follows_extraction(
    paths: PathsView,
    task: DeployTaskView,
    stage: SdkStageView,
    event: SdkEventView,
    error_text: Seq<char>,
    i: int,
)
    requires
        0 <= i < spec_sdk_deploy_step(paths, task, stage, event, error_text).1.len(),
    ensures
        spec_sdk_deploy_step(paths, task, stage, event, error_text).1[i] is Extract ==> {
            &&& stage is Removing
            &&& event matches SdkEventView::Completed(Ok(_))
            &&& spec_sdk_deploy_step(paths, task, stage, event, error_text).0 == (SdkStageView::Extracting {
                state: Some(spec_deployed_state(task.hw_target, stage->Removing_metadata)),
            })
        },
        spec_sdk_deploy_step(paths, task, stage, event, error_text).1[i] is WriteState ==> {
            &&& stage is Extracting
            &&& event matches SdkEventView::Completed(Ok(_))
        },
{
}

/// A deployment that need not happen ends as soon as the state is read, with the SDK in
/// place: when the task is not forced and the SDK found up to date, loading names the
/// directory and looks for it, finding it asks for the state, and the state ends the
/// deployment with a line saying so.
pub proof fn lemma_up_to_date_sdk_is_kept(
    paths: PathsView,
    task: DeployTaskView,
    metadata: Seq<(Seq<char>, Seq<char>)>,
    state: Option<Seq<(String, JsonValue)>>,
    error_text: Seq<char>,
)
    requires
        spec_skips_deployment(task.force, true, state, task.hw_target, metadata),
    ensures
        spec_sdk_deploy_step(paths, task, SdkStageView::Loading, SdkEventView::Loaded(Ok(metadata)), error_text)
            == (SdkStageView::CheckingDir { metadata }, seq![
                SdkActionView::Log { level: LogLevel::Info, text: "uFBT SDK dir: "@ + spec_sdk_dir(paths) },
                SdkActionView::CheckDir(spec_sdk_dir(paths)),
            ]),
        spec_sdk_deploy_step(paths, task, SdkStageView::CheckingDir { metadata }, SdkEventView::DirExists(true), error_text)
            == (SdkStageView::ReadingState { metadata }, seq![SdkActionView::ReadState(spec_sdk_state_file(paths))]),
        spec_sdk_deploy_step(paths, task, SdkStageView::ReadingState { metadata }, SdkEventView::StateRead(state), error_text)
            == (SdkStageView::Done, seq![
                SdkActionView::Log { level: LogLevel::Info, text: "SDK is up-to-date"@ },
                SdkActionView::Finish(true),
            ]),
{
}

/// The state read next to an existing SDK decides whether it is kept: the deployment ends
/// there, with the SDK in place, exactly when the state shows the SDK up to date for the
/// task (a state was read, its version is not one that always updates, and its version and
/// hardware target are the ones offered now). Otherwise the bundle for the task's target is
/// fetched, and a state that could not be read is logged as an undeterminable version.
pub proof fn lemma_state_read_decides(
    paths: PathsView,
    task: DeployTaskView,
    metadata: Seq<(Seq<char>, Seq<char>)>,
    state: Option<Seq<(String, JsonValue)>>,
    error_text: Seq<char>,
)
    ensures
        ({
            let (next, batch) = spec_sdk_deploy_step(
                paths,
                task,
                SdkStageView::ReadingState { metadata },
                SdkEventView::StateRead(state),
                error_text,
            );
            &&& spec_skips_deployment(false, true, state, task.hw_target, metadata) ==> {
                &&& next is Done
                &&& batch == seq![
                    SdkActionView::Log { level: LogLevel::Info, text: "SDK is up-to-date"@ },
                    SdkActionView::Finish(true),
                ]
            }
            &&& !spec_skips_deployment(false, true, state, task.hw_target, metadata) ==> {
                &&& next == (SdkStageView::Fetching { metadata })
                &&& batch.len() > 0
                &&& batch.last() == SdkActionView::Fetch(spec_fetch_target(task))
                &&& forall|i: int| 0 <= i < batch.len() ==> !(#[trigger] batch[i] is Finish)
            }
            &&& state is None ==> batch == seq![
                SdkActionView::Log {
                    level: LogLevel::Info,
                    text: "Cannot determine current SDK version, updating"@,
                },
                SdkActionView::Fetch(spec_fetch_target(task)),
            ]
        }),
{
    super::deployer::lemma_check_sdk_compares_version_and_target(state, task.hw_target, metadata);
}

} // verus!
