//! The installation pipeline as a state machine: from the stage a run is in and
//! the event that the outside world reports, to the next stage, the progress
//! record to publish and the work to perform next.

use vstd::prelude::*;
use vstd::string::*;
use vstd::utf8::*;
use crate::command::{
    command_line, lossy_text, stderr_text, CommandLine, CommandLineView, CommandOutput,
};
use crate::progress::{update_install_progress, InstallProgress, ProgressView};

verus! {

/// What an installation request carries.
#[derive(Debug)]
pub struct InstallConfig {
    /// Target directory, created if missing.
    pub install_path: String,
    /// Carried along; the pipeline does not branch on it.
    pub model_type: String,
    /// Carried along; the pipeline does not branch on it.
    pub use_gpu: bool,
}

/// Where a run stands. `ModelsReady` is the final pause after the models
/// directory exists; it is published under the same name as `Models`.
#[derive(Clone, Copy, Debug, PartialEq, Eq, Structural)]
pub enum InstallStage {
    Idle,
    Preparing,
    Cloning,
    Cloned,
    Dependencies,
    DepsInstalled,
    Models,
    ModelsReady,
    Completed,
    Error,
}

/// What the outside world reports back to a run.
#[derive(Debug)]
pub enum InstallEvent {
    /// The run was asked to begin.
    Started,
    /// The pause that was asked for is over.
    PauseElapsed,
    /// The command ran and exited with success.
    CommandSucceeded,
    /// The command ran and exited with failure; holds its standard error as text.
    CommandFailed(String),
    /// The command could not be started; holds the reason.
    CommandNotRun(String),
    /// The directory exists now.
    DirectoryCreated,
    /// The directory could not be created; holds the reason.
    DirectoryFailed(String),
}

/// The work a run asks for next.
#[derive(Clone, Copy, Debug, PartialEq, Eq, Structural)]
pub enum InstallAction {
    /// Wait for the pacing delay, then report `PauseElapsed`.
    Pause,
    /// Clone the source repository into the install path.
    CloneRepository,
    /// Install the dependencies listed in the cloned tree.
    InstallDependencies,
    /// Create the models directory under the install path.
    CreateModelsDirectory,
    /// Nothing more: the run has not begun or is over.
    Stop,
}

/// The stage that follows `stage` on `event`, where the event is expected there.
pub open spec fn next_stage(stage: InstallStage, event: InstallEvent) -> Option<InstallStage> {
    match stage {
        InstallStage::Idle => match event {
            InstallEvent::Started => Some(InstallStage::Preparing),
            _ => None,
        },
        InstallStage::Preparing => match event {
            InstallEvent::PauseElapsed => Some(InstallStage::Cloning),
            _ => None,
        },
        InstallStage::Cloning => match event {
            InstallEvent::CommandSucceeded => Some(InstallStage::Cloned),
            InstallEvent::CommandFailed(_) => Some(InstallStage::Error),
            InstallEvent::CommandNotRun(_) => Some(InstallStage::Error),
            _ => None,
        },
        InstallStage::Cloned => match event {
            InstallEvent::PauseElapsed => Some(InstallStage::Dependencies),
            _ => None,
        },
        InstallStage::Dependencies => match event {
            InstallEvent::CommandSucceeded => Some(InstallStage::DepsInstalled),
            InstallEvent::CommandFailed(_) => Some(InstallStage::Error),
            InstallEvent::CommandNotRun(_) => Some(InstallStage::Error),
            _ => None,
        },
        InstallStage::DepsInstalled => match event {
            InstallEvent::PauseElapsed => Some(InstallStage::Models),
            _ => None,
        },
        InstallStage::Models => match event {
            InstallEvent::DirectoryCreated => Some(InstallStage::ModelsReady),
            InstallEvent::DirectoryFailed(_) => Some(InstallStage::Error),
            _ => None,
        },
        InstallStage::ModelsReady => match event {
            InstallEvent::PauseElapsed => Some(InstallStage::Completed),
            _ => None,
        },
        InstallStage::Completed => None,
        InstallStage::Error => None,
    }
}

/// The work outstanding while a run is in `stage`.
pub open spec fn pending_action(stage: InstallStage) -> InstallAction {
    match stage {
        InstallStage::Idle => InstallAction::Stop,
        InstallStage::Preparing => InstallAction::Pause,
        InstallStage::Cloning => InstallAction::CloneRepository,
        InstallStage::Cloned => InstallAction::Pause,
        InstallStage::Dependencies => InstallAction::InstallDependencies,
        InstallStage::DepsInstalled => InstallAction::Pause,
        InstallStage::Models => InstallAction::CreateModelsDirectory,
        InstallStage::ModelsReady => InstallAction::Pause,
        InstallStage::Completed => InstallAction::Stop,
        InstallStage::Error => InstallAction::Stop,
    }
}

/// The percentage published in `stage`.
pub open spec fn percent(stage: InstallStage) -> nat {
    match stage {
        InstallStage::Idle => 0,
        InstallStage::Preparing => 5,
        InstallStage::Cloning => 20,
        InstallStage::Cloned => 40,
        InstallStage::Dependencies => 60,
        InstallStage::DepsInstalled => 80,
        InstallStage::Models => 90,
        InstallStage::ModelsReady => 90,
        InstallStage::Completed => 100,
        InstallStage::Error => 0,
    }
}

/// The symbolic name published in `stage`.
pub open spec fn step_name(stage: InstallStage) -> Seq<char> {
    match stage {
        InstallStage::Idle => "idle"@,
        InstallStage::Preparing => "preparing"@,
        InstallStage::Cloning => "cloning"@,
        InstallStage::Cloned => "cloned"@,
        InstallStage::Dependencies => "dependencies"@,
        InstallStage::DepsInstalled => "deps_installed"@,
        InstallStage::Models => "models"@,
        InstallStage::ModelsReady => "models"@,
        InstallStage::Completed => "completed"@,
        InstallStage::Error => "error"@,
    }
}

/// The status line published in a stage other than `Error`.
pub open spec fn status_message(stage: InstallStage) -> Seq<char> {
    match stage {
        InstallStage::Idle => "Ready to install"@,
        InstallStage::Preparing => "准备安装环境..."@,
        InstallStage::Cloning => "正在克隆 IndexTTS 源代码..."@,
        InstallStage::Cloned => "源代码克隆完成"@,
        InstallStage::Dependencies => "正在安装 Python 依赖..."@,
        InstallStage::DepsInstalled => "依赖安装完成"@,
        InstallStage::Models => "正在设置模型目录..."@,
        InstallStage::ModelsReady => "正在设置模型目录..."@,
        InstallStage::Completed => "IndexTTS 安装完成！"@,
        InstallStage::Error => ""@,
    }
}

/// What a failure report opens with, by the stage it ends and its kind.
pub open spec fn failure_prefix(stage: InstallStage, event: InstallEvent) -> Seq<char> {
    match event {
        InstallEvent::CommandFailed(_) => if stage == InstallStage::Cloning {
            "Git clone failed: "@
        } else {
            "Pip install failed: "@
        },
        InstallEvent::CommandNotRun(_) => if stage == InstallStage::Cloning {
            "Failed to run git clone: "@
        } else {
            "Failed to run pip install: "@
        },
        _ => "Failed to create models directory: "@,
    }
}

/// The text that a failure event carries.
pub open spec fn failure_detail(event: InstallEvent) -> Seq<char> {
    match event {
        InstallEvent::CommandFailed(text) => text@,
        InstallEvent::CommandNotRun(reason) => reason@,
        InstallEvent::DirectoryFailed(reason) => reason@,
        _ => Seq::empty(),
    }
}

/// The message published when `event` ends `stage` in failure.
pub open spec fn failure_message(stage: InstallStage, event: InstallEvent) -> Seq<char> {
    failure_prefix(stage, event) + failure_detail(event)
}

/// The record published when `event` moves a run out of `stage`.
pub open spec fn published(stage: InstallStage, event: InstallEvent) -> ProgressView
    recommends
        next_stage(stage, event) is Some,
{
    let next = next_stage(stage, event).unwrap();
    ProgressView {
        step: step_name(next),
        progress: percent(next),
        message: if next == InstallStage::Error {
            failure_message(stage, event)
        } else {
            status_message(next)
        },
        is_complete: next == InstallStage::Completed,
        has_error: next == InstallStage::Error,
    }
}

/// Whether no transition leaves `stage`.
pub open spec fn is_terminal(stage: InstallStage) -> bool {
    stage == InstallStage::Completed || stage == InstallStage::Error
}

impl InstallStage {
    /// The stage that follows on `event`, or `None` where the event is not
    /// expected in this stage.
    pub fn next(self, event: &InstallEvent) -> (next: Option<InstallStage>)
        ensures
            next == next_stage(self, *event),
    {
        match self {
            InstallStage::Idle => match event {
                InstallEvent::Started => Some(InstallStage::Preparing),
                _ => None,
            },
            InstallStage::Preparing => match event {
                InstallEvent::PauseElapsed => Some(InstallStage::Cloning),
                _ => None,
            },
            InstallStage::Cloning => match event {
                InstallEvent::CommandSucceeded => Some(InstallStage::Cloned),
                InstallEvent::CommandFailed(_) => Some(InstallStage::Error),
                InstallEvent::CommandNotRun(_) => Some(InstallStage::Error),
                _ => None,
            },
            InstallStage::Cloned => match event {
                InstallEvent::PauseElapsed => Some(InstallStage::Dependencies),
                _ => None,
            },
            InstallStage::Dependencies => match event {
                InstallEvent::CommandSucceeded => Some(InstallStage::DepsInstalled),
                InstallEvent::CommandFailed(_) => Some(InstallStage::Error),
                InstallEvent::CommandNotRun(_) => Some(InstallStage::Error),
                _ => None,
            },
            InstallStage::DepsInstalled => match event {
                InstallEvent::PauseElapsed => Some(InstallStage::Models),
                _ => None,
            },
            InstallStage::Models => match event {
                InstallEvent::DirectoryCreated => Some(InstallStage::ModelsReady),
                InstallEvent::DirectoryFailed(_) => Some(InstallStage::Error),
                _ => None,
            },
            InstallStage::ModelsReady => match event {
                InstallEvent::PauseElapsed => Some(InstallStage::Completed),
                _ => None,
            },
            InstallStage::Completed => None,
            InstallStage::Error => None,
        }
    }

    /// The work outstanding in this stage.
    pub fn action(self) -> (action: InstallAction)
        ensures
            action == pending_action(self),
    {
        match self {
            InstallStage::Preparing | InstallStage::Cloned | InstallStage::DepsInstalled
            | InstallStage::ModelsReady => InstallAction::Pause,
            InstallStage::Cloning => InstallAction::CloneRepository,
            InstallStage::Dependencies => InstallAction::InstallDependencies,
            InstallStage::Models => InstallAction::CreateModelsDirectory,
            InstallStage::Idle | InstallStage::Completed | InstallStage::Error => {
                InstallAction::Stop
            },
        }
    }

    /// The percentage published in this stage.
    pub fn percentage(self) -> (p: u32)
        ensures
            p == percent(self),
            p <= 100,
    {
        match self {
            InstallStage::Idle | InstallStage::Error => 0,
            InstallStage::Preparing => 5,
            InstallStage::Cloning => 20,
            InstallStage::Cloned => 40,
            InstallStage::Dependencies => 60,
            InstallStage::DepsInstalled => 80,
            InstallStage::Models | InstallStage::ModelsReady => 90,
            InstallStage::Completed => 100,
        }
    }

    /// The symbolic name published in this stage.
    pub fn name(self) -> (name: &'static str)
        ensures
            name@ == step_name(self),
    {
        match self {
            InstallStage::Idle => "idle",
            InstallStage::Preparing => "preparing",
            InstallStage::Cloning => "cloning",
            InstallStage::Cloned => "cloned",
            InstallStage::Dependencies => "dependencies",
            InstallStage::DepsInstalled => "deps_installed",
            InstallStage::Models | InstallStage::ModelsReady => "models",
            InstallStage::Completed => "completed",
            InstallStage::Error => "error",
        }
    }

    /// The status line published in this stage; empty for `Error`, whose
    /// message comes from the failure.
    pub fn status(self) -> (message: &'static str)
        ensures
            message@ == status_message(self),
    {
        match self {
            InstallStage::Idle => "Ready to install",
            InstallStage::Preparing => "准备安装环境...",
            InstallStage::Cloning => "正在克隆 IndexTTS 源代码...",
            InstallStage::Cloned => "源代码克隆完成",
            InstallStage::Dependencies => "正在安装 Python 依赖...",
            InstallStage::DepsInstalled => "依赖安装完成",
            InstallStage::Models | InstallStage::ModelsReady => "正在设置模型目录...",
            InstallStage::Completed => "IndexTTS 安装完成！",
            InstallStage::Error => "",
        }
    }
}

/// The message for a failure: what the report opens with, then the text the
/// event carries.
pub fn failure_report(stage: InstallStage, event: &InstallEvent) -> (message: String)
    ensures
        message@ == failure_message(stage, *event),
{
    let cloning = stage == InstallStage::Cloning;
    match event {
        InstallEvent::CommandFailed(text) => {
            let prefix = if cloning {
                "Git clone failed: "
            } else {
                "Pip install failed: "
            };
            String::from_str(prefix).concat(text.as_str())
        },
        InstallEvent::CommandNotRun(reason) => {
            let prefix = if cloning {
                "Failed to run git clone: "
            } else {
                "Failed to run pip install: "
            };
            String::from_str(prefix).concat(reason.as_str())
        },
        InstallEvent::DirectoryFailed(reason) => {
            String::from_str("Failed to create models directory: ").concat(reason.as_str())
        },
        _ => {
            let message = String::from_str("Failed to create models directory: ");
            assert(message@ =~= message@ + Seq::<char>::empty());
            message
        },
    }
}

/// The event that the outcome of a subprocess amounts to: success, failure
/// with its standard error decoded, or the reason it never ran.
pub fn command_event(outcome: Result<CommandOutput, String>) -> (event: InstallEvent)
    ensures
        match outcome {
            Ok(output) => if output.success {
                event == InstallEvent::CommandSucceeded
            } else {
                event matches InstallEvent::CommandFailed(text) && text@ == lossy_text(
                    output.stderr@,
                ) && (valid_utf8(output.stderr@) ==> text@ == decode_utf8(output.stderr@))
            },
            Err(reason) => event == InstallEvent::CommandNotRun(reason),
        },
{
    match outcome {
        Ok(output) => if output.success {
            InstallEvent::CommandSucceeded
        } else {
            InstallEvent::CommandFailed(stderr_text(&output))
        },
        Err(reason) => InstallEvent::CommandNotRun(reason),
    }
}

/// The event that the outcome of creating a directory amounts to.
pub fn directory_event(outcome: Result<(), String>) -> (event: InstallEvent)
    ensures
        match outcome {
            Ok(_) => event == InstallEvent::DirectoryCreated,
            Err(reason) => event == InstallEvent::DirectoryFailed(reason),
        },
{
    match outcome {
        Ok(_) => InstallEvent::DirectoryCreated,
        Err(reason) => InstallEvent::DirectoryFailed(reason),
    }
}

/// One installation run: the stage it is in and the record it last published.
#[derive(Debug)]
pub struct InstallRun {
    pub stage: InstallStage,
    pub record: InstallProgress,
}

impl InstallRun {
    /// The record says what the stage says: its name and percentage, the
    /// completion flag only in `Completed`, the error flag only in `Error`.
    pub open spec fn wf(&self) -> bool {
        &&& self.record@.step == step_name(self.stage)
        &&& self.record@.progress == percent(self.stage)
        &&& self.record@.is_complete == (self.stage == InstallStage::Completed)
        &&& self.record@.has_error == (self.stage == InstallStage::Error)
        &&& self.stage != InstallStage::Error ==> self.record@.message == status_message(
            self.stage,
        )
    }

    /// A run that has not begun.
    pub fn new() -> (run: InstallRun)
        ensures
            run.wf(),
            run.stage == InstallStage::Idle,
            run.record@.message == "Ready to install"@,
    {
        InstallRun {
            stage: InstallStage::Idle,
            record: InstallProgress {
                step: String::from_str("idle"),
                progress: 0,
                message: String::from_str("Ready to install"),
                is_complete: false,
                has_error: false,
            },
        }
    }

    /// Whether the record says what the stage says.
    pub fn is_consistent(&self) -> (ok: bool)
        ensures
            ok == self.wf(),
    {
        let name = String::from_str(self.stage.name());
        let status = String::from_str(self.stage.status());
        self.record.step == name && self.record.progress == self.stage.percentage()
            && self.record.is_complete == (self.stage == InstallStage::Completed)
            && self.record.has_error == (self.stage == InstallStage::Error) && (self.stage
            == InstallStage::Error || self.record.message == status)
    }

    /// Takes one event. Where the stage expects it, the run moves on, the
    /// record is overwritten and the next piece of work is returned; where it
    /// does not, nothing changes and `None` is returned. The step into
    /// `ModelsReady` publishes nothing new and leaves the record as it is.
    pub fn advance(&mut self, event: &InstallEvent) -> (action: Option<InstallAction>)
        requires
            old(self).wf(),
        ensures
            final(self).wf(),
            match next_stage(old(self).stage, *event) {
                Some(next) => {
                    &&& final(self).stage == next
                    &&& final(self).record@ == published(old(self).stage, *event)
                    &&& action == Some(pending_action(next))
                },
                None => *final(self) == *old(self) && action is None,
            },
            final(self).stage != InstallStage::Error ==> final(self).record@.progress >= old(
                self,
            ).record@.progress,
            next_stage(old(self).stage, *event) == Some(InstallStage::ModelsReady)
                ==> final(self).record == old(self).record,
    {
        let next = match self.stage.next(event) {
            Some(next) => next,
            None => {
                return None;
            },
        };
        if next == InstallStage::Error {
            let message = failure_report(self.stage, event);
            update_install_progress(&mut self.record, "error", 0, message.as_str(), false, true);
        } else if next != InstallStage::ModelsReady {
            update_install_progress(
                &mut self.record,
                next.name(),
                next.percentage(),
                next.status(),
                next == InstallStage::Completed,
                false,
            );
        }
        self.stage = next;
        Some(next.action())
    }
}

/// The stage reached from `Idle` after `events`, each taken in turn; an event
/// that the stage does not expect leaves the stage as it is.
pub open spec fn stage_after(events: Seq<InstallEvent>) -> InstallStage
    decreases events.len(),
{
    if events.len() == 0 {
        InstallStage::Idle
    } else {
        let before = stage_after(events.drop_last());
        match next_stage(before, events.last()) {
            Some(next) => next,
            None => before,
        }
    }
}

/// Place of a stage along the run that succeeds.
pub open spec fn position(stage: InstallStage) -> int {
    match stage {
        InstallStage::Idle => 0,
        InstallStage::Preparing => 1,
        InstallStage::Cloning => 2,
        InstallStage::Cloned => 3,
        InstallStage::Dependencies => 4,
        InstallStage::DepsInstalled => 5,
        InstallStage::Models => 6,
        InstallStage::ModelsReady => 7,
        InstallStage::Completed => 8,
        InstallStage::Error => 0,
    }
}

/// The percentages published along the run that succeeds, by place.
pub open spec fn success_percentages() -> Seq<nat> {
    seq![0, 5, 20, 40, 60, 80, 90, 90, 100]
}

/// A step that does not fail moves exactly one place along
/// idle, preparing, cloning, cloned, dependencies, deps_installed, models,
/// completed; the percentages before and after are those of the two places,
/// and the later is not the smaller.
pub proof fn law_step_follows_success_order(stage: InstallStage, event: InstallEvent)
    requires
        next_stage(stage, event) is Some,
        next_stage(stage, event) != Some(InstallStage::Error),
    ensures
        position(next_stage(stage, event).unwrap()) == position(stage) + 1,
        percent(stage) == success_percentages()[position(stage)],
        percent(next_stage(stage, event).unwrap()) == success_percentages()[position(stage) + 1],
        percent(stage) <= percent(next_stage(stage, event).unwrap()),
{
}

/// Over any sequence of events that does not end in the error stage, the
/// published percentage never goes down from one moment to a later one.
pub proof fn law_progress_never_decreases(events: Seq<InstallEvent>, i: int, j: int)
    requires
        0 <= i <= j <= events.len(),
        stage_after(events.take(j)) != InstallStage::Error,
    ensures
        percent(stage_after(events.take(i))) <= percent(stage_after(events.take(j))),
    decreases j - i,
{
    if i < j {
        assert(events.take(j).drop_last() =~= events.take(j - 1));
        law_progress_never_decreases(events, i, j - 1);
    }
}

/// A clone or a dependency installation that fails, or cannot be started,
/// ends the run in the error stage: the record shows the error flag, no
/// completion and progress 0, no work is asked for, and no later event moves
/// the run on.
pub proof fn law_failure_ends_run(stage: InstallStage, event: InstallEvent, later: InstallEvent)
    requires
        stage == InstallStage::Cloning || stage == InstallStage::Dependencies,
        event is CommandFailed || event is CommandNotRun,
    ensures
        next_stage(stage, event) == Some(InstallStage::Error),
        published(stage, event).has_error,
        !published(stage, event).is_complete,
        published(stage, event).progress == 0,
        published(stage, event).step == "error"@,
        published(stage, event).message == failure_prefix(stage, event) + failure_detail(event),
        pending_action(InstallStage::Error) == InstallAction::Stop,
        next_stage(InstallStage::Error, later) is None,
{
}

/// Once a sequence of events has reached the error stage, it stays there
/// whatever follows.
pub proof fn law_error_is_final(events: Seq<InstallEvent>, i: int, j: int)
    requires
        0 <= i <= j <= events.len(),
        stage_after(events.take(i)) == InstallStage::Error,
    ensures
        stage_after(events.take(j)) == InstallStage::Error,
    decreases j - i,
{
    if i < j {
        assert(events.take(j).drop_last() =~= events.take(j - 1));
        law_error_is_final(events, i, j - 1);
    }
}

/// No event leaves a terminal stage.
pub proof fn law_terminal_stages_stay(stage: InstallStage, event: InstallEvent)
    requires
        is_terminal(stage),
    ensures
        next_stage(stage, event) is None,
{
}

/// The command that clones the source repository into the install path.
pub fn clone_command(install_path: &str) -> (line: CommandLine)
    ensures
        line@ == (CommandLineView {
            program: "git"@,
            arguments: seq!["clone"@, "https://github.com/X-T-E-R/IndexTTS.git"@, install_path@],
            directory: None,
        }),
{
    let arguments = vec!["clone", "https://github.com/X-T-E-R/IndexTTS.git", install_path];
    let line = command_line("git", &arguments);
    assert(line@.arguments =~= seq![
        "clone"@,
        "https://github.com/X-T-E-R/IndexTTS.git"@,
        install_path@,
    ]);
    line
}

/// The command that installs the dependencies listed in the cloned tree; it
/// runs with the install path as its working directory.
pub fn dependency_command(install_path: &str) -> (line: CommandLine)
    ensures
        line@ == (CommandLineView {
            program: "pip"@,
            arguments: seq!["install"@, "-r"@, "requirements.txt"@],
            directory: Some(install_path@),
        }),
{
    let arguments = vec!["install", "-r", "requirements.txt"];
    let mut line = command_line("pip", &arguments);
    assert(line@.arguments =~= seq!["install"@, "-r"@, "requirements.txt"@]);
    line.directory = Some(String::from_str(install_path));
    line
}

/// The subprocess that `action` stands for, if it stands for one. Of the
/// request only the install path enters into it.
pub fn action_command(action: InstallAction, config: &InstallConfig) -> (line: Option<CommandLine>)
    ensures
        match action {
            InstallAction::CloneRepository => line matches Some(l) && l@ == (CommandLineView {
                program: "git"@,
                arguments: seq![
                    "clone"@,
                    "https://github.com/X-T-E-R/IndexTTS.git"@,
                    config.install_path@,
                ],
                directory: None,
            }),
            InstallAction::InstallDependencies => line matches Some(l) && l@ == (CommandLineView {
                program: "pip"@,
                arguments: seq!["install"@, "-r"@, "requirements.txt"@],
                directory: Some(config.install_path@),
            }),
            _ => line is None,
        },
{
    match action {
        InstallAction::CloneRepository => Some(clone_command(config.install_path.as_str())),
        InstallAction::InstallDependencies => Some(
            dependency_command(config.install_path.as_str()),
        ),
        _ => None,
    }
}

/// Length in seconds of the pacing delay behind `InstallAction::Pause`.
pub fn pause_seconds() -> (seconds: u64)
    ensures
        seconds == 1,
{
    1
}

/// Name of the models directory, created under the install path.
pub fn models_directory_name() -> (name: &'static str)
    ensures
        name@ == "checkpoints"@,
{
    "checkpoints"
}

} // verus!
