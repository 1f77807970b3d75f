use nipe::args::Args;
use nipe::pipeline::{Action, Channel, Event, Failure, Orchestrator, Stage};

fn orchestrator(clipboard_editor: bool, trim: bool) -> Orchestrator {
    Orchestrator::new(
        Args { suffix: None, clipboard_editor, trim },
        Some(String::from("nano")),
    )
}

/// Reports the events that succeed up to the stage that waits for the
/// editor to end.
fn until_editor_runs(o: &mut Orchestrator, input: &str) {
    o.step(Event::Start).unwrap();
    o.step(Event::InputRead(String::from(input))).unwrap();
    o.step(Event::FileStaged).unwrap();
    o.step(Event::EditorSpawned).unwrap();
    assert_eq!(o.stage(), Stage::EditorRunning);
}

#[test]
fn a_new_run_is_idle() {
    let o = orchestrator(false, false);
    assert_eq!(o.stage(), Stage::Idle);
    assert_eq!(o.editor(), "nano");
    assert_eq!(o.args().suffix, None);
    assert_eq!(o.channel(), Channel::Stdio);
    assert!(!o.is_finished());
    assert_eq!(o.exit_code(), None);
}

#[test]
fn a_new_run_takes_the_default_editor() {
    let o = Orchestrator::new(Args { suffix: None, clipboard_editor: true, trim: false }, None);
    assert_eq!(o.editor(), "vi");
    assert_eq!(o.channel(), Channel::Clipboard);
}

#[test]
fn stages_follow_one_another() {
    let mut o = Orchestrator::new(
        Args { suffix: Some(String::from("md")), clipboard_editor: false, trim: false },
        Some(String::from("nano")),
    );
    assert_eq!(o.step(Event::Start), Some(Action::ReadInput { source: Channel::Stdio }));
    assert_eq!(o.stage(), Stage::ReadingInput);
    assert_eq!(
        o.step(Event::InputRead(String::from("text"))),
        Some(Action::StageFile { suffix: String::from(".md"), content: String::from("text\n") })
    );
    assert_eq!(o.stage(), Stage::StagingFile);
    assert_eq!(
        o.step(Event::FileStaged),
        Some(Action::SpawnEditor { command: String::from("nano") })
    );
    assert_eq!(o.stage(), Stage::FileStaged);
    assert_eq!(o.step(Event::EditorSpawned), Some(Action::WaitForEditor));
    assert_eq!(o.stage(), Stage::EditorRunning);
    assert_eq!(o.step(Event::EditorExited { success: true }), Some(Action::ReadResult));
    assert_eq!(o.stage(), Stage::ReadingResult);
    assert_eq!(
        o.step(Event::ResultRead(String::from("edited\n"))),
        Some(Action::Emit { sink: Channel::Stdio, text: String::from("edited\n") })
    );
    assert_eq!(o.stage(), Stage::Emitting);
    assert!(!o.is_finished());
    assert_eq!(o.step(Event::Emitted), Some(Action::Finish));
    assert_eq!(o.stage(), Stage::Done);
    assert!(o.is_finished());
    assert_eq!(o.exit_code(), Some(0));
}

#[test]
fn unchanged_file_is_emitted_as_staged() {
    let mut o = orchestrator(false, false);
    o.step(Event::Start).unwrap();
    let content = match o.step(Event::InputRead(String::from("hello\n"))) {
        Some(Action::StageFile { suffix, content }) => {
            assert_eq!(suffix, ".txt");
            content
        }
        other => panic!("{:?}", other),
    };
    assert_eq!(content, "hello\n\n");
    o.step(Event::FileStaged).unwrap();
    o.step(Event::EditorSpawned).unwrap();
    o.step(Event::EditorExited { success: true }).unwrap();
    let emitted = match o.step(Event::ResultRead(content.clone())) {
        Some(Action::Emit { sink, text }) => {
            assert_eq!(sink, Channel::Stdio);
            text
        }
        other => panic!("{:?}", other),
    };
    assert_eq!(emitted, content);
    assert_ne!(emitted, format!("{}\n", content));
}

#[test]
fn unchanged_file_is_emitted_trimmed() {
    let mut o = orchestrator(false, true);
    o.step(Event::Start).unwrap();
    let content = match o.step(Event::InputRead(String::from("  spaced  \n\n"))) {
        Some(Action::StageFile { content, .. }) => content,
        other => panic!("{:?}", other),
    };
    assert_eq!(content, "  spaced  \n\n\n");
    o.step(Event::FileStaged).unwrap();
    o.step(Event::EditorSpawned).unwrap();
    o.step(Event::EditorExited { success: true }).unwrap();
    assert_eq!(
        o.step(Event::ResultRead(content)),
        Some(Action::Emit { sink: Channel::Stdio, text: String::from("spaced") })
    );
}

#[test]
fn default_editor_that_cannot_start_aborts_the_run() {
    let mut o = Orchestrator::new(Args { suffix: None, clipboard_editor: false, trim: false }, None);
    o.step(Event::Start).unwrap();
    o.step(Event::InputRead(String::from("text"))).unwrap();
    assert_eq!(o.step(Event::FileStaged), Some(Action::SpawnEditor { command: String::from("vi") }));
    assert_eq!(
        o.step(Event::SpawnFailed),
        Some(Action::Abort { failure: Failure::ProcessLaunch })
    );
    assert_eq!(o.stage(), Stage::Aborted(Failure::ProcessLaunch));
    assert_eq!(o.exit_code(), Some(1));
    assert_eq!(o.step(Event::ResultRead(String::from("text\n"))), None);
    assert_eq!(o.step(Event::Emitted), None);
}

#[test]
fn clipboard_run_writes_the_edit_back_to_the_clipboard() {
    let mut o = orchestrator(true, false);
    assert_eq!(o.step(Event::Start), Some(Action::ReadInput { source: Channel::Clipboard }));
    assert_eq!(
        o.step(Event::InputRead(String::from("draft"))),
        Some(Action::StageFile { suffix: String::from(".txt"), content: String::from("draft\n") })
    );
    o.step(Event::FileStaged).unwrap();
    o.step(Event::EditorSpawned).unwrap();
    o.step(Event::EditorExited { success: true }).unwrap();
    assert_eq!(
        o.step(Event::ResultRead(String::from("draft v2\n"))),
        Some(Action::Emit { sink: Channel::Clipboard, text: String::from("draft v2\n") })
    );
    assert_eq!(o.step(Event::Emitted), Some(Action::Finish));
}

#[test]
fn clipboard_run_with_trim_writes_the_edit_without_the_line_end() {
    let mut o = orchestrator(true, true);
    until_editor_runs(&mut o, "draft");
    o.step(Event::EditorExited { success: true }).unwrap();
    assert_eq!(
        o.step(Event::ResultRead(String::from("draft v2\n"))),
        Some(Action::Emit { sink: Channel::Clipboard, text: String::from("draft v2") })
    );
}

#[test]
fn editor_failure_aborts_without_output() {
    let mut o = orchestrator(false, false);
    until_editor_runs(&mut o, "text");
    assert_eq!(
        o.step(Event::EditorExited { success: false }),
        Some(Action::Abort { failure: Failure::EditorFailureStatus })
    );
    assert_eq!(o.stage(), Stage::Aborted(Failure::EditorFailureStatus));
    assert!(o.is_finished());
    assert_eq!(o.exit_code(), Some(1));
    assert_eq!(o.step(Event::ResultRead(String::from("text\n"))), None);
    assert_eq!(o.step(Event::Emitted), None);
    assert_eq!(o.stage(), Stage::Aborted(Failure::EditorFailureStatus));
}

#[test]
fn unreadable_standard_input_is_an_input_read_failure() {
    let mut o = orchestrator(false, false);
    o.step(Event::Start).unwrap();
    assert_eq!(
        o.step(Event::InputUnavailable),
        Some(Action::Abort { failure: Failure::InputRead })
    );
    assert_eq!(o.stage(), Stage::Aborted(Failure::InputRead));
    assert_eq!(o.exit_code(), Some(1));
    assert_eq!(o.step(Event::FileStaged), None);
    assert_eq!(o.step(Event::EditorSpawned), None);
}

#[test]
fn unreadable_clipboard_is_a_clipboard_failure() {
    let mut o = orchestrator(true, false);
    o.step(Event::Start).unwrap();
    assert_eq!(
        o.step(Event::InputUnavailable),
        Some(Action::Abort { failure: Failure::ClipboardAccess })
    );
    assert_eq!(o.stage(), Stage::Aborted(Failure::ClipboardAccess));
}

#[test]
fn staging_failure_is_a_resource_failure() {
    let mut o = orchestrator(false, false);
    o.step(Event::Start).unwrap();
    o.step(Event::InputRead(String::from("text"))).unwrap();
    assert_eq!(
        o.step(Event::StagingFailed),
        Some(Action::Abort { failure: Failure::ResourceAllocation })
    );
    assert_eq!(o.stage(), Stage::Aborted(Failure::ResourceAllocation));
    assert_eq!(o.step(Event::EditorSpawned), None);
}

#[test]
fn file_that_cannot_be_read_back_is_a_resource_failure() {
    let mut o = orchestrator(false, false);
    until_editor_runs(&mut o, "text");
    o.step(Event::EditorExited { success: true }).unwrap();
    assert_eq!(
        o.step(Event::ResultUnavailable),
        Some(Action::Abort { failure: Failure::ResourceAllocation })
    );
    assert_eq!(o.exit_code(), Some(1));
}

#[test]
fn refused_output_is_an_output_failure() {
    let mut o = orchestrator(false, false);
    until_editor_runs(&mut o, "text");
    o.step(Event::EditorExited { success: true }).unwrap();
    o.step(Event::ResultRead(String::from("text\n"))).unwrap();
    assert_eq!(
        o.step(Event::EmitFailed),
        Some(Action::Abort { failure: Failure::OutputWrite })
    );
    assert_eq!(o.stage(), Stage::Aborted(Failure::OutputWrite));
    assert_eq!(o.exit_code(), Some(1));
}

#[test]
fn refused_clipboard_write_is_a_clipboard_failure() {
    let mut o = orchestrator(true, false);
    until_editor_runs(&mut o, "text");
    o.step(Event::EditorExited { success: true }).unwrap();
    o.step(Event::ResultRead(String::from("text\n"))).unwrap();
    assert_eq!(
        o.step(Event::EmitFailed),
        Some(Action::Abort { failure: Failure::ClipboardAccess })
    );
}

#[test]
fn an_event_out_of_turn_changes_nothing() {
    let mut o = orchestrator(false, false);
    assert_eq!(o.step(Event::Emitted), None);
    assert_eq!(o.step(Event::InputRead(String::from("early"))), None);
    assert_eq!(o.step(Event::EditorExited { success: true }), None);
    assert_eq!(o.stage(), Stage::Idle);
    o.step(Event::Start).unwrap();
    assert_eq!(o.step(Event::Start), None);
    assert_eq!(o.step(Event::FileStaged), None);
    assert_eq!(o.step(Event::ResultRead(String::from("early"))), None);
    assert_eq!(o.stage(), Stage::ReadingInput);
    o.step(Event::InputRead(String::from("text"))).unwrap();
    assert_eq!(o.step(Event::EditorSpawned), None);
    assert_eq!(o.step(Event::InputUnavailable), None);
    assert_eq!(o.stage(), Stage::StagingFile);
    o.step(Event::FileStaged).unwrap();
    assert_eq!(o.step(Event::EditorExited { success: false }), None);
    assert_eq!(o.step(Event::StagingFailed), None);
    assert_eq!(o.stage(), Stage::FileStaged);
    o.step(Event::EditorSpawned).unwrap();
    assert_eq!(o.step(Event::SpawnFailed), None);
    assert_eq!(o.step(Event::Emitted), None);
    assert_eq!(o.stage(), Stage::EditorRunning);
    o.step(Event::EditorExited { success: true }).unwrap();
    assert_eq!(o.step(Event::EditorExited { success: false }), None);
    assert_eq!(o.step(Event::EmitFailed), None);
    assert_eq!(o.stage(), Stage::ReadingResult);
    o.step(Event::ResultRead(String::from("text\n"))).unwrap();
    assert_eq!(o.step(Event::ResultRead(String::from("again\n"))), None);
    assert_eq!(o.step(Event::ResultUnavailable), None);
    assert_eq!(o.stage(), Stage::Emitting);
    o.step(Event::Emitted).unwrap();
    assert_eq!(o.step(Event::Emitted), None);
    assert_eq!(o.step(Event::Start), None);
    assert_eq!(o.stage(), Stage::Done);
}

#[test]
fn step_keeps_the_configuration() {
    let mut o = Orchestrator::new(
        Args { suffix: Some(String::from("md")), clipboard_editor: true, trim: true },
        Some(String::from("nano")),
    );
    until_editor_runs(&mut o, "text");
    o.step(Event::EditorExited { success: false }).unwrap();
    assert_eq!(o.editor(), "nano");
    assert_eq!(
        *o.args(),
        Args { suffix: Some(String::from("md")), clipboard_editor: true, trim: true }
    );
}
