//! Whole runs: what a sequence of events leads to from the start, and what
//! holds of every such run.

use crate::args::{editor_spec, file_suffix_spec, output_spec, Args};
use crate::pipeline::{
    channel_spec, exit_code_spec, input_failure, output_failure, transition, Action, ActionView,
    Channel, Config, Event, EventView, Failure, Orchestrator, Stage,
};
use crate::text::{lemma_trim_ignores_trailing_whitespace, staged, trimmed};
use vstd::prelude::*;

verus! {

/// The stage reached and the actions ordered, in their order, after `events`
/// have been reported to a run that had not begun. An event that the stage
/// reached does not wait for changes nothing.
pub open spec fn run(cfg: Config, events: Seq<EventView>) -> (Stage, Seq<ActionView>)
    decreases events.len(),
{
    if events.len() == 0 {
        (Stage::Idle, Seq::empty())
    } else {
        let before = run(cfg, events.drop_last());
        match transition(cfg, before.0, events.last()) {
            Some((stage, action)) => (stage, before.1.push(action)),
            None => before,
        }
    }
}

/// Events as plain values.
pub open spec fn events_view(events: Seq<Event>) -> Seq<EventView> {
    events.map_values(|e: Event| e@)
}

/// Actions as plain values.
pub open spec fn actions_view(actions: Seq<Action>) -> Seq<ActionView> {
    actions.map_values(|a: Action| a@)
}

/// Reports `events`, in their order, to a run that has not begun, and gives
/// the run as it then stands with the actions that it ordered.
pub fn replay(args: Args, editor_var: Option<String>, events: Vec<Event>) -> (r: (
    Orchestrator,
    Vec<Action>,
))
    ensures
        r.0@.config.args == args@,
        r.0@.config.editor == editor_spec(
            match editor_var {
                Some(e) => Some(e@),
                None => None,
            },
        ),
        (r.0@.stage, actions_view(r.1@)) == run(r.0@.config, events_view(events@)),
{
    let mut orchestrator = Orchestrator::new(args, editor_var);
    let mut actions: Vec<Action> = Vec::new();
    let ghost cfg = orchestrator@.config;
    let ghost all = events@;
    assert(actions_view(actions@) == Seq::<ActionView>::empty());
    assert(events_view(all.subrange(0, 0)) == Seq::<EventView>::empty());
    for event in it: events
        invariant
            it.seq() == all,
            orchestrator@.config == cfg,
            (orchestrator@.stage, actions_view(actions@)) == run(
                cfg,
                events_view(all.subrange(0, it.index())),
            ),
    {
        let ghost done = events_view(all.subrange(0, it.index()));
        let ghost before = actions_view(actions@);
        proof {
            lemma_run_push(cfg, done, event@);
            assert(events_view(all.subrange(0, it.index() + 1)) == done.push(event@));
        }
        match orchestrator.step(event) {
            Some(action) => {
                actions.push(action);
                assert(actions_view(actions@) == before.push(action@));
            },
            None => {},
        }
    }
    assert(all.subrange(0, all.len() as int) == all);
    (orchestrator, actions)
}

/// How many actions have been ordered when a run that goes on, or has ended
/// with success, is in `stage`.
pub open spec fn stage_rank(stage: Stage) -> int {
    match stage {
        Stage::Idle => 0,
        Stage::ReadingInput => 1,
        Stage::StagingFile => 2,
        Stage::FileStaged => 3,
        Stage::EditorRunning => 4,
        Stage::ReadingResult => 5,
        Stage::Emitting => 6,
        Stage::Done => 7,
        Stage::Aborted(_) => 8,
    }
}

/// Whether `action` is the one that a run orders in place `k`, as far as the
/// configuration alone decides it.
pub open spec fn in_order(cfg: Config, k: int, action: ActionView) -> bool {
    match action {
        ActionView::ReadInput { source } => k == 0 && source == channel_spec(
            cfg.args.clipboard_editor,
        ),
        ActionView::StageFile { suffix, content } => k == 1 && suffix == file_suffix_spec(
            cfg.args.suffix,
        ),
        ActionView::SpawnEditor { command } => k == 2 && command == cfg.editor,
        ActionView::WaitForEditor => k == 3,
        ActionView::ReadResult => k == 4,
        ActionView::Emit { sink, text } => k == 5 && sink == channel_spec(
            cfg.args.clipboard_editor,
        ),
        ActionView::Finish => k == 6,
        ActionView::Abort { failure } => false,
    }
}

/// The failure of a run that ends after `k` actions of the regular order.
pub open spec fn failure_after(cfg: Config, k: int) -> Failure {
    let channel = channel_spec(cfg.args.clipboard_editor);
    if k == 1 {
        input_failure(channel)
    } else if k == 3 {
        Failure::ProcessLaunch
    } else if k == 4 {
        Failure::EditorFailureStatus
    } else if k == 6 {
        output_failure(channel)
    } else {
        Failure::ResourceAllocation
    }
}

/// The first `n` of `actions` are in the regular order.
pub open spec fn regular(cfg: Config, actions: Seq<ActionView>, n: int) -> bool {
    forall|k: int| 0 <= k < n ==> in_order(cfg, k, #[trigger] actions[k])
}

/// What the actions of a run look like in `stage`: the regular order as far
/// as the stage has come, and where the run was aborted, the one order to
/// abort after them, with the failure that belongs to that place.
pub open spec fn well_shaped(cfg: Config, stage: Stage, actions: Seq<ActionView>) -> bool {
    match stage {
        Stage::Aborted(failure) => {
            &&& 2 <= actions.len() <= 7
            &&& regular(cfg, actions, actions.len() - 1)
            &&& actions.last() == (ActionView::Abort { failure })
            &&& failure == failure_after(cfg, actions.len() - 1)
        },
        _ => actions.len() == stage_rank(stage) && regular(cfg, actions, actions.len() as int),
    }
}

/// Whether `action` reads from or writes to `channel`.
pub open spec fn touches(action: ActionView, channel: Channel) -> bool {
    match action {
        ActionView::ReadInput { source } => source == channel,
        ActionView::Emit { sink, text } => sink == channel,
        _ => false,
    }
}

/// The channel that a run does not use.
pub open spec fn other_channel(clipboard_editor: bool) -> Channel {
    channel_spec(!clipboard_editor)
}

/// One step leads to the next stage in the chain or aborts the run, and
/// each action is ordered in one stage and in answer to one kind of event:
/// the file is staged with the input that was read, the editor is started
/// once the file is staged, the file is read back once the editor has ended
/// with success, and output is ordered once the file has been read back.
pub proof fn lemma_transition_in_order(cfg: Config, stage: Stage, event: EventView)
    ensures
        transition(cfg, stage, event) matches Some((next, action)) ==> {
            &&& exit_code_spec(stage) is None
            &&& next is Aborted <==> action is Abort
            &&& !(next is Aborted) ==> stage_rank(next) == stage_rank(stage) + 1
            &&& action is StageFile ==> stage == Stage::ReadingInput && event is InputRead
                && action->content == staged(event->InputRead_0)
            &&& action is SpawnEditor ==> stage == Stage::StagingFile && event
                == EventView::FileStaged
            &&& action is WaitForEditor ==> stage == Stage::FileStaged && event
                == EventView::EditorSpawned
            &&& action is ReadResult ==> stage == Stage::EditorRunning && event == (
            EventView::EditorExited { success: true })
            &&& action is Emit ==> stage == Stage::ReadingResult && event is ResultRead
                && action->text == output_spec(cfg.args.trim, event->ResultRead_0)
        },
{
}

/// One more event: the run goes on from where the events before it led.
pub proof fn lemma_run_push(cfg: Config, events: Seq<EventView>, event: EventView)
    ensures
        run(cfg, events.push(event)) == match transition(cfg, run(cfg, events).0, event) {
            Some((stage, action)) => (stage, run(cfg, events).1.push(action)),
            None => run(cfg, events),
        },
{
    assert(events.push(event).drop_last() == events);
}

/// Every run orders its actions in the one regular order, each at most once,
/// and ends them with at most one order to abort.
pub proof fn lemma_run_well_shaped(cfg: Config, events: Seq<EventView>)
    ensures
        well_shaped(cfg, run(cfg, events).0, run(cfg, events).1),
    decreases events.len(),
{
    if events.len() > 0 {
        let before = run(cfg, events.drop_last());
        lemma_run_well_shaped(cfg, events.drop_last());
        match transition(cfg, before.0, events.last()) {
            Some((stage, action)) => {
                let actions = before.1.push(action);
                let n = before.1.len() as int;
                assert(regular(cfg, before.1, n));
                assert forall|k: int| 0 <= k < n implies in_order(cfg, k, #[trigger] actions[k]) by {
                    assert(actions[k] == before.1[k]);
                }
                assert(actions[n] == action);
            },
            None => {},
        }
    }
}

/// A run that has ended takes no further event.
pub proof fn lemma_ended_run_stays(cfg: Config, events: Seq<EventView>, n: int)
    requires
        0 <= n <= events.len(),
        exit_code_spec(run(cfg, events.subrange(0, n)).0) is Some,
    ensures
        run(cfg, events) == run(cfg, events.subrange(0, n)),
    decreases events.len(),
{
    if n == events.len() {
        assert(events.subrange(0, n) == events);
    } else {
        let shorter = events.drop_last();
        assert(shorter.subrange(0, n) == events.subrange(0, n));
        lemma_ended_run_stays(cfg, shorter, n);
    }
}

/// Where the editor ends without success, the run is aborted for that
/// reason, no output is ever ordered, and the exit status is not zero.
pub proof fn lemma_abort_on_editor_failure(cfg: Config, events: Seq<EventView>, i: int)
    requires
        0 <= i < events.len(),
        run(cfg, events.subrange(0, i)).0 == Stage::EditorRunning,
        events[i] == (EventView::EditorExited { success: false }),
    ensures
        run(cfg, events).0 == Stage::Aborted(Failure::EditorFailureStatus),
        forall|k: int|
            0 <= k < run(cfg, events).1.len() ==> !(#[trigger] run(cfg, events).1[k] is Emit),
        exit_code_spec(run(cfg, events).0) == Some(1u8),
{
    let upto = events.subrange(0, i + 1);
    assert(upto.drop_last() == events.subrange(0, i));
    assert(upto.last() == events[i]);
    assert(run(cfg, upto).0 == Stage::Aborted(Failure::EditorFailureStatus));
    lemma_ended_run_stays(cfg, events, i + 1);
    lemma_run_well_shaped(cfg, events);
    let actions = run(cfg, events).1;
    assert(failure_after(cfg, actions.len() - 1) == Failure::EditorFailureStatus);
    assert(actions.len() == 5);
    assert forall|k: int| 0 <= k < actions.len() implies !(#[trigger] actions[k] is Emit) by {
        if k < 4 {
            assert(in_order(cfg, k, actions[k]));
        }
    }
}

/// The file is read back only after the editor has ended with success.
pub proof fn lemma_read_back_needs_success(cfg: Config, events: Seq<EventView>, k: int)
    requires
        0 <= k < run(cfg, events).1.len(),
        run(cfg, events).1[k] is ReadResult,
    ensures
        exists|i: int|
            0 <= i < events.len() && #[trigger] events[i] == (EventView::EditorExited {
                success: true,
            }),
    decreases events.len(),
{
    if events.len() > 0 {
        let shorter = events.drop_last();
        let before = run(cfg, shorter);
        if k < before.1.len() {
            assert(before.1[k] == run(cfg, events).1[k]);
            lemma_read_back_needs_success(cfg, shorter, k);
            let i = choose|i: int|
                0 <= i < shorter.len() && #[trigger] shorter[i] == (EventView::EditorExited {
                    success: true,
                });
            assert(events[i] == shorter[i]);
        } else {
            lemma_transition_in_order(cfg, before.0, events.last());
            assert(events[events.len() - 1] == (EventView::EditorExited { success: true }));
        }
    }
}

/// Output is ordered only in a run whose editor has ended with success, and
/// once: in the one place after the order to read the file back.
pub proof fn lemma_output_needs_success(cfg: Config, events: Seq<EventView>, k: int)
    requires
        0 <= k < run(cfg, events).1.len(),
        run(cfg, events).1[k] is Emit,
    ensures
        k == 5,
        run(cfg, events).0 == Stage::Emitting || run(cfg, events).0 == Stage::Done || run(
            cfg,
            events,
        ).0 == Stage::Aborted(output_failure(channel_spec(cfg.args.clipboard_editor))),
        exists|i: int|
            0 <= i < events.len() && #[trigger] events[i] == (EventView::EditorExited {
                success: true,
            }),
{
    lemma_run_well_shaped(cfg, events);
    let actions = run(cfg, events).1;
    assert(in_order(cfg, k, actions[k]));
    assert(in_order(cfg, 4, actions[4]));
    lemma_read_back_needs_success(cfg, events, 4);
}

/// The editor is started only after the temporary file has been staged:
/// before the order to start it, the file was reported written and flushed.
pub proof fn lemma_editor_needs_staged_file(cfg: Config, events: Seq<EventView>, k: int)
    requires
        0 <= k < run(cfg, events).1.len(),
        run(cfg, events).1[k] is SpawnEditor,
    ensures
        exists|i: int| 0 <= i < events.len() && #[trigger] events[i] == EventView::FileStaged,
    decreases events.len(),
{
    if events.len() > 0 {
        let shorter = events.drop_last();
        let before = run(cfg, shorter);
        if k < before.1.len() {
            assert(before.1[k] == run(cfg, events).1[k]);
            lemma_editor_needs_staged_file(cfg, shorter, k);
            let i = choose|i: int|
                0 <= i < shorter.len() && #[trigger] shorter[i] == EventView::FileStaged;
            assert(events[i] == shorter[i]);
        } else {
            lemma_transition_in_order(cfg, before.0, events.last());
            assert(events[events.len() - 1] == EventView::FileStaged);
        }
    }
}

/// A run touches the channel it is configured with and never the other one:
/// with the clipboard chosen, standard input and output stay untouched, and
/// without it the clipboard does.
pub proof fn lemma_mode_exclusivity(cfg: Config, events: Seq<EventView>)
    ensures
        forall|k: int|
            0 <= k < run(cfg, events).1.len() ==> !touches(
                #[trigger] run(cfg, events).1[k],
                other_channel(cfg.args.clipboard_editor),
            ),
        forall|k: int|
            0 <= k < run(cfg, events).1.len() && (run(cfg, events).1[k] is ReadInput || run(
                cfg,
                events,
            ).1[k] is Emit) ==> touches(
                #[trigger] run(cfg, events).1[k],
                channel_spec(cfg.args.clipboard_editor),
            ),
{
    lemma_run_well_shaped(cfg, events);
    let stage = run(cfg, events).0;
    let actions = run(cfg, events).1;
    assert forall|k: int| 0 <= k < actions.len() implies (!touches(
        #[trigger] actions[k],
        other_channel(cfg.args.clipboard_editor),
    ) && ((actions[k] is ReadInput || actions[k] is Emit) ==> touches(
        actions[k],
        channel_spec(cfg.args.clipboard_editor),
    ))) by {
        if stage is Aborted && k == actions.len() - 1 {
        } else {
            assert(in_order(cfg, k, actions[k]));
        }
    }
}

/// A run makes at most one temporary file and starts at most one editor,
/// and a run that has ended with success has done both.
pub proof fn lemma_one_file_one_editor(cfg: Config, events: Seq<EventView>)
    ensures
        forall|j: int, k: int|
            0 <= j < run(cfg, events).1.len() && 0 <= k < run(cfg, events).1.len() && (
            #[trigger] run(cfg, events).1[j]) is StageFile && (#[trigger] run(
                cfg,
                events,
            ).1[k]) is StageFile ==> j == k,
        forall|j: int, k: int|
            0 <= j < run(cfg, events).1.len() && 0 <= k < run(cfg, events).1.len() && (
            #[trigger] run(cfg, events).1[j]) is SpawnEditor && (#[trigger] run(
                cfg,
                events,
            ).1[k]) is SpawnEditor ==> j == k,
        run(cfg, events).0 == Stage::Done ==> run(cfg, events).1.len() == 7 && run(
            cfg,
            events,
        ).1[1] is StageFile && run(cfg, events).1[2] is SpawnEditor,
{
    lemma_run_well_shaped(cfg, events);
    let stage = run(cfg, events).0;
    let actions = run(cfg, events).1;
    assert forall|k: int|
        0 <= k < actions.len() && (#[trigger] actions[k]) is StageFile implies k == 1 by {
        if stage is Aborted && k == actions.len() - 1 {
        } else {
            assert(in_order(cfg, k, actions[k]));
        }
    }
    assert forall|k: int|
        0 <= k < actions.len() && (#[trigger] actions[k]) is SpawnEditor implies k == 2 by {
        if stage is Aborted && k == actions.len() - 1 {
        } else {
            assert(in_order(cfg, k, actions[k]));
        }
    }
    if stage == Stage::Done {
        assert(in_order(cfg, 1, actions[1]));
        assert(in_order(cfg, 2, actions[2]));
    }
}

/// The events of a run in which everything succeeds and the file holds
/// `result` when the editor has ended.
pub open spec fn smooth_events(input: Seq<char>, result: Seq<char>) -> Seq<EventView> {
    seq![
        EventView::Start,
        EventView::InputRead(input),
        EventView::FileStaged,
        EventView::EditorSpawned,
        EventView::EditorExited { success: true },
        EventView::ResultRead(result),
        EventView::Emitted,
    ]
}

/// A run in which everything succeeds stages the input with one line end
/// after it, under the configured suffix, starts the configured editor, and
/// writes what the file then holds, trimmed where trimming is asked for.
pub proof fn lemma_smooth_run(cfg: Config, input: Seq<char>, result: Seq<char>)
    ensures
        run(cfg, smooth_events(input, result)) == (
            Stage::Done,
            seq![
                ActionView::ReadInput { source: channel_spec(cfg.args.clipboard_editor) },
                ActionView::StageFile {
                    suffix: file_suffix_spec(cfg.args.suffix),
                    content: staged(input),
                },
                ActionView::SpawnEditor { command: cfg.editor },
                ActionView::WaitForEditor,
                ActionView::ReadResult,
                ActionView::Emit {
                    sink: channel_spec(cfg.args.clipboard_editor),
                    text: output_spec(cfg.args.trim, result),
                },
                ActionView::Finish,
            ],
        ),
{
    let e0 = Seq::<EventView>::empty();
    let e1 = e0.push(EventView::Start);
    let e2 = e1.push(EventView::InputRead(input));
    let e3 = e2.push(EventView::FileStaged);
    let e4 = e3.push(EventView::EditorSpawned);
    let e5 = e4.push(EventView::EditorExited { success: true });
    let e6 = e5.push(EventView::ResultRead(result));
    let e7 = e6.push(EventView::Emitted);
    lemma_run_push(cfg, e0, EventView::Start);
    lemma_run_push(cfg, e1, EventView::InputRead(input));
    lemma_run_push(cfg, e2, EventView::FileStaged);
    lemma_run_push(cfg, e3, EventView::EditorSpawned);
    lemma_run_push(cfg, e4, EventView::EditorExited { success: true });
    lemma_run_push(cfg, e5, EventView::ResultRead(result));
    lemma_run_push(cfg, e6, EventView::Emitted);
    assert(e7 == smooth_events(input, result));
    let channel = channel_spec(cfg.args.clipboard_editor);
    assert(run(cfg, e7).1 == seq![
        ActionView::ReadInput { source: channel },
        ActionView::StageFile { suffix: file_suffix_spec(cfg.args.suffix), content: staged(input) },
        ActionView::SpawnEditor { command: cfg.editor },
        ActionView::WaitForEditor,
        ActionView::ReadResult,
        ActionView::Emit { sink: channel, text: output_spec(cfg.args.trim, result) },
        ActionView::Finish,
    ]);
}

/// The output of a run whose editor leaves the file as it was staged. Without
/// trimming it is the input and the one line end that staging put after it;
/// with trimming it is the input, trimmed.
pub open spec fn round_trip_output(trim: bool, input: Seq<char>) -> Seq<char> {
    if trim {
        trimmed(input)
    } else {
        input.push('\n')
    }
}

/// Where the editor changes nothing, the run ends with success and its one
/// output is the input: with the line end of staging after it, or trimmed.
pub proof fn lemma_round_trip(cfg: Config, input: Seq<char>)
    ensures
        run(cfg, smooth_events(input, staged(input))).0 == Stage::Done,
        run(cfg, smooth_events(input, staged(input))).1.len() == 7,
        run(cfg, smooth_events(input, staged(input))).1[5] == (ActionView::Emit {
            sink: channel_spec(cfg.args.clipboard_editor),
            text: round_trip_output(cfg.args.trim, input),
        }),
        forall|k: int|
            0 <= k < 7 && k != 5 ==> !(#[trigger] run(
                cfg,
                smooth_events(input, staged(input)),
            ).1[k] is Emit),
{
    lemma_smooth_run(cfg, input, staged(input));
    lemma_trim_ignores_trailing_whitespace(input, '\n');
}

} // verus!
