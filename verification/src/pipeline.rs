//! The run as a state machine. The caller performs each [`Action`] (read the
//! input, write the temporary file, start the editor and wait for it, read
//! the file back, write the output) and reports what came of it as an
//! [`Event`]; [`Orchestrator::step`] decides what follows.

use crate::args::{editor_spec, file_suffix_spec, output_spec, resolve_editor, Args, ArgsView};
use crate::text::{stage_content, staged};
use vstd::prelude::*;

verus! {

/// Where the text comes from and where it goes.
#[derive(Clone, Copy, Debug, PartialEq, Eq, Structural)]
pub enum Channel {
    /// Standard input and standard output.
    Stdio,
    /// The system's clipboard.
    Clipboard,
}

/// Why a run ended without output.
#[derive(Clone, Copy, Debug, PartialEq, Eq, Structural)]
pub enum Failure {
    /// Standard input could not be read to its end.
    InputRead,
    /// The temporary file could not be created, written or read back.
    ResourceAllocation,
    /// The editor was not found or could not be started.
    ProcessLaunch,
    /// The editor ended with a status other than success.
    EditorFailureStatus,
    /// The clipboard was empty or out of reach.
    ClipboardAccess,
    /// Standard output did not take the text.
    OutputWrite,
}

/// How far a run has come. Each stage but the last two waits for the one
/// event that reports on the action ordered when it was entered.
#[derive(Clone, Copy, Debug, PartialEq, Eq, Structural)]
pub enum Stage {
    /// Nothing has happened yet.
    Idle,
    /// The input is being read.
    ReadingInput,
    /// The temporary file is being created, written and flushed.
    StagingFile,
    /// The temporary file holds the input; the editor is being started.
    FileStaged,
    /// The editor runs; the caller waits for it to end.
    EditorRunning,
    /// The editor ended with success; the file is being read back.
    ReadingResult,
    /// The output is being written.
    Emitting,
    /// The output has been written.
    Done,
    /// The run has ended without output.
    Aborted(Failure),
}

/// What the caller reports.
#[derive(Debug, PartialEq, Eq)]
pub enum Event {
    /// The run is to begin.
    Start,
    /// The whole input, as text.
    InputRead(String),
    /// The input could not be read.
    InputUnavailable,
    /// The temporary file holds the content and has been flushed.
    FileStaged,
    /// The temporary file could not be created or written.
    StagingFailed,
    /// The editor has been started on the temporary file.
    EditorSpawned,
    /// The editor could not be started.
    SpawnFailed,
    /// The editor has ended.
    EditorExited { success: bool },
    /// What the temporary file holds now.
    ResultRead(String),
    /// The temporary file could not be read back.
    ResultUnavailable,
    /// The output has been written.
    Emitted,
    /// The output could not be written.
    EmitFailed,
}

/// What the caller is to do next.
#[derive(Debug, PartialEq, Eq)]
pub enum Action {
    /// Read all of the input from `source`.
    ReadInput { source: Channel },
    /// Create a temporary file whose name ends with `suffix`, write
    /// `content` to it and flush it.
    StageFile { suffix: String, content: String },
    /// Start `command` with the temporary file's path as its one argument
    /// and with the caller's own standard streams.
    SpawnEditor { command: String },
    /// Wait until the editor ends.
    WaitForEditor,
    /// Read the temporary file from its start.
    ReadResult,
    /// Write `text`, and nothing else, to `sink`.
    Emit { sink: Channel, text: String },
    /// End the run with success.
    Finish,
    /// End the run with a failure.
    Abort { failure: Failure },
}

/// An [`Event`] as plain values.
pub enum EventView {
    Start,
    InputRead(Seq<char>),
    InputUnavailable,
    FileStaged,
    StagingFailed,
    EditorSpawned,
    SpawnFailed,
    EditorExited { success: bool },
    ResultRead(Seq<char>),
    ResultUnavailable,
    Emitted,
    EmitFailed,
}

/// An [`Action`] as plain values.
pub enum ActionView {
    ReadInput { source: Channel },
    StageFile { suffix: Seq<char>, content: Seq<char> },
    SpawnEditor { command: Seq<char> },
    WaitForEditor,
    ReadResult,
    Emit { sink: Channel, text: Seq<char> },
    Finish,
    Abort { failure: Failure },
}

impl View for Event {
    type V = EventView;

    open spec fn view(&self) -> EventView {
        match self {
            Event::Start => EventView::Start,
            Event::InputRead(text) => EventView::InputRead(text@),
            Event::InputUnavailable => EventView::InputUnavailable,
            Event::FileStaged => EventView::FileStaged,
            Event::StagingFailed => EventView::StagingFailed,
            Event::EditorSpawned => EventView::EditorSpawned,
            Event::SpawnFailed => EventView::SpawnFailed,
            Event::EditorExited { success } => EventView::EditorExited { success: *success },
            Event::ResultRead(text) => EventView::ResultRead(text@),
            Event::ResultUnavailable => EventView::ResultUnavailable,
            Event::Emitted => EventView::Emitted,
            Event::EmitFailed => EventView::EmitFailed,
        }
    }
}

impl View for Action {
    type V = ActionView;

    open spec fn view(&self) -> ActionView {
        match self {
            Action::ReadInput { source } => ActionView::ReadInput { source: *source },
            Action::StageFile { suffix, content } => ActionView::StageFile {
                suffix: suffix@,
                content: content@,
            },
            Action::SpawnEditor { command } => ActionView::SpawnEditor { command: command@ },
            Action::WaitForEditor => ActionView::WaitForEditor,
            Action::ReadResult => ActionView::ReadResult,
            Action::Emit { sink, text } => ActionView::Emit { sink: *sink, text: text@ },
            Action::Finish => ActionView::Finish,
            Action::Abort { failure } => ActionView::Abort { failure: *failure },
        }
    }
}

/// What a run is configured with: the options and the editor command.
pub struct Config {
    pub args: ArgsView,
    pub editor: Seq<char>,
}

/// The channel that a run uses for both its input and its output.
pub open spec fn channel_spec(clipboard_editor: bool) -> Channel {
    if clipboard_editor {
        Channel::Clipboard
    } else {
        Channel::Stdio
    }
}

/// The failure of a channel that gave no input.
pub open spec fn input_failure(channel: Channel) -> Failure {
    match channel {
        Channel::Stdio => Failure::InputRead,
        Channel::Clipboard => Failure::ClipboardAccess,
    }
}

/// The failure of a channel that took no output.
pub open spec fn output_failure(channel: Channel) -> Failure {
    match channel {
        Channel::Stdio => Failure::OutputWrite,
        Channel::Clipboard => Failure::ClipboardAccess,
    }
}

/// The stage and the action that follow `event` in `stage`, or `None` where
/// `stage` does not wait for `event`.
pub open spec fn transition(cfg: Config, stage: Stage, event: EventView) -> Option<
    (Stage, ActionView),
> {
    let channel = channel_spec(cfg.args.clipboard_editor);
    match (stage, event) {
        (Stage::Idle, EventView::Start) => Some(
            (Stage::ReadingInput, ActionView::ReadInput { source: channel }),
        ),
        (Stage::ReadingInput, EventView::InputRead(text)) => Some(
            (
                Stage::StagingFile,
                ActionView::StageFile {
                    suffix: file_suffix_spec(cfg.args.suffix),
                    content: staged(text),
                },
            ),
        ),
        (Stage::ReadingInput, EventView::InputUnavailable) => Some(aborted(input_failure(channel))),
        (Stage::StagingFile, EventView::FileStaged) => Some(
            (Stage::FileStaged, ActionView::SpawnEditor { command: cfg.editor }),
        ),
        (Stage::StagingFile, EventView::StagingFailed) => Some(
            aborted(Failure::ResourceAllocation),
        ),
        (Stage::FileStaged, EventView::EditorSpawned) => Some(
            (Stage::EditorRunning, ActionView::WaitForEditor),
        ),
        (Stage::FileStaged, EventView::SpawnFailed) => Some(aborted(Failure::ProcessLaunch)),
        (Stage::EditorRunning, EventView::EditorExited { success }) => if success {
            Some((Stage::ReadingResult, ActionView::ReadResult))
        } else {
            Some(aborted(Failure::EditorFailureStatus))
        },
        (Stage::ReadingResult, EventView::ResultRead(text)) => Some(
            (
                Stage::Emitting,
                ActionView::Emit { sink: channel, text: output_spec(cfg.args.trim, text) },
            ),
        ),
        (Stage::ReadingResult, EventView::ResultUnavailable) => Some(
            aborted(Failure::ResourceAllocation),
        ),
        (Stage::Emitting, EventView::Emitted) => Some((Stage::Done, ActionView::Finish)),
        (Stage::Emitting, EventView::EmitFailed) => Some(aborted(output_failure(channel))),
        _ => None,
    }
}

/// The end of a run by `failure`.
pub open spec fn aborted(failure: Failure) -> (Stage, ActionView) {
    (Stage::Aborted(failure), ActionView::Abort { failure })
}

/// The exit status that a stage stands for, where the run has ended there:
/// zero after the output was written, one after a failure.
pub open spec fn exit_code_spec(stage: Stage) -> Option<u8> {
    match stage {
        Stage::Done => Some(0u8),
        Stage::Aborted(_) => Some(1u8),
        _ => None,
    }
}

/// One run: its configuration and the stage it has reached. The stage
/// changes through [`Orchestrator::step`] alone.
#[derive(Debug, PartialEq, Eq)]
pub struct Orchestrator {
    args: Args,
    editor: String,
    stage: Stage,
}

/// An [`Orchestrator`] as plain values.
pub struct OrchestratorView {
    pub config: Config,
    pub stage: Stage,
}

impl View for Orchestrator {
    type V = OrchestratorView;

    closed spec fn view(&self) -> OrchestratorView {
        OrchestratorView {
            config: Config { args: self.args@, editor: self.editor@ },
            stage: self.stage,
        }
    }
}

impl Orchestrator {
    /// A run that has not begun, with `args` and with the editor that
    /// `editor_var`, the value of the `EDITOR` variable, names.
    pub fn new(args: Args, editor_var: Option<String>) -> (r: Orchestrator)
        ensures
            r@.stage == Stage::Idle,
            r@.config.args == args@,
            r@.config.editor == editor_spec(
                match editor_var {
                    Some(e) => Some(e@),
                    None => None,
                },
            ),
    {
        Orchestrator { args, editor: resolve_editor(editor_var), stage: Stage::Idle }
    }

    /// The options of this run.
    pub fn args(&self) -> (r: &Args)
        ensures
            r@ == self@.config.args,
    {
        &self.args
    }

    /// The editor command of this run.
    pub fn editor(&self) -> (r: &str)
        ensures
            r@ == self@.config.editor,
    {
        self.editor.as_str()
    }

    /// The stage reached.
    pub fn stage(&self) -> (r: Stage)
        ensures
            r == self@.stage,
    {
        self.stage
    }

    /// The channel of this run's input and output.
    pub fn channel(&self) -> (r: Channel)
        ensures
            r == channel_spec(self@.config.args.clipboard_editor),
    {
        if self.args.clipboard_editor {
            Channel::Clipboard
        } else {
            Channel::Stdio
        }
    }

    /// Whether the run has ended.
    pub fn is_finished(&self) -> (r: bool)
        ensures
            r == (self@.stage == Stage::Done || self@.stage is Aborted),
            r == exit_code_spec(self@.stage).is_some(),
    {
        match self.stage {
            Stage::Done => true,
            Stage::Aborted(_) => true,
            _ => false,
        }
    }

    /// The exit status of a run that has ended, `None` while it goes on.
    pub fn exit_code(&self) -> (r: Option<u8>)
        ensures
            r == exit_code_spec(self@.stage),
    {
        match self.stage {
            Stage::Done => Some(0u8),
            Stage::Aborted(_) => Some(1u8),
            _ => None,
        }
    }

    fn abort(&mut self, failure: Failure) -> (r: Option<Action>)
        ensures
            final(self)@.stage == Stage::Aborted(failure),
            final(self)@.config == old(self)@.config,
            r is Some,
            r.unwrap()@ == (ActionView::Abort { failure }),
    {
        self.stage = Stage::Aborted(failure);
        Some(Action::Abort { failure })
    }

    /// Takes `event` and gives the action that follows. Where the stage
    /// reached does not wait for `event`, nothing changes and there is no
    /// action.
    pub fn step(&mut self, event: Event) -> (r: Option<Action>)
        ensures
            final(self)@.config == old(self)@.config,
            match transition(old(self)@.config, old(self)@.stage, event@) {
                Some((stage, action)) => final(self)@.stage == stage && r is Some && r.unwrap()@
                    == action,
                None => final(self)@.stage == old(self)@.stage && r is None,
            },
    {
        match self.stage {
            Stage::Idle => match event {
                Event::Start => {
                    self.stage = Stage::ReadingInput;
                    Some(Action::ReadInput { source: self.channel() })
                },
                _ => None,
            },
            Stage::ReadingInput => match event {
                Event::InputRead(text) => {
                    self.stage = Stage::StagingFile;
                    Some(
                        Action::StageFile {
                            suffix: self.args.file_suffix(),
                            content: stage_content(text.as_str()),
                        },
                    )
                },
                Event::InputUnavailable => {
                    let failure = match self.channel() {
                        Channel::Stdio => Failure::InputRead,
                        Channel::Clipboard => Failure::ClipboardAccess,
                    };
                    self.abort(failure)
                },
                _ => None,
            },
            Stage::StagingFile => match event {
                Event::FileStaged => {
                    self.stage = Stage::FileStaged;
                    Some(Action::SpawnEditor { command: self.editor.clone() })
                },
                Event::StagingFailed => self.abort(Failure::ResourceAllocation),
                _ => None,
            },
            Stage::FileStaged => match event {
                Event::EditorSpawned => {
                    self.stage = Stage::EditorRunning;
                    Some(Action::WaitForEditor)
                },
                Event::SpawnFailed => self.abort(Failure::ProcessLaunch),
                _ => None,
            },
            Stage::EditorRunning => match event {
                Event::EditorExited { success } => {
                    if success {
                        self.stage = Stage::ReadingResult;
                        Some(Action::ReadResult)
                    } else {
                        self.abort(Failure::EditorFailureStatus)
                    }
                },
                _ => None,
            },
            Stage::ReadingResult => match event {
                Event::ResultRead(text) => {
                    self.stage = Stage::Emitting;
                    Some(Action::Emit { sink: self.channel(), text: self.args.get_output(text) })
                },
                Event::ResultUnavailable => self.abort(Failure::ResourceAllocation),
                _ => None,
            },
            Stage::Emitting => match event {
                Event::Emitted => {
                    self.stage = Stage::Done;
                    Some(Action::Finish)
                },
                Event::EmitFailed => {
                    let failure = match self.channel() {
                        Channel::Stdio => Failure::OutputWrite,
                        Channel::Clipboard => Failure::ClipboardAccess,
                    };
                    self.abort(failure)
                },
                _ => None,
            },
            Stage::Done => None,
            Stage::Aborted(_) => None,
        }
    }
}

} // verus!
