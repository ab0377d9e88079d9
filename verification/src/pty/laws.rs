//! What holds of every run of the supervisor.

use vstd::prelude::*;
use crate::pty::model::{step, Phase, SessionView};
use crate::pty::protocol::{Command, ReplyView, Signal};
use crate::pty::run::{
    answers, fitting_interest, inputs, outputs, resizes, run_of, Departure,
};
use crate::pty::size::{spec_effective_size, SizeOverride};
use crate::pty::sound::{
    lemma_run_sound, lemma_step_keeps_settings, resizes_owed, unrecorded_input, unrecorded_output,
};
use crate::pty::status::{spec_exit_code, ChildStatus};

verus! {

/// No byte loss. Whenever no run of reads from the master is under way, and
/// so whenever the session has ended, the bytes of all `output` calls made
/// on the sink, joined in the order of the calls, are exactly the bytes read
/// from the master.
pub proof fn law_no_byte_loss(size_override: SizeOverride, capture_input: bool, replies: Seq<ReplyView>)
    requires
        answers(size_override, capture_input, replies),
    ensures
        ({
            let run = run_of(size_override, capture_input, replies);
            &&& run.state.phase != Phase::MasterReading ==> outputs(run.trace.sink)
                == run.trace.from_master
            &&& run.command.spec_is_final() ==> outputs(run.trace.sink) == run.trace.from_master
        }),
{
    lemma_run_sound(size_override, capture_input, replies);
    let run = run_of(size_override, capture_input, replies);
    assert(outputs(run.trace.sink) + Seq::<u8>::empty() =~= outputs(run.trace.sink));
}

/// Order preservation. At every point of a run the bytes the sink was given
/// as output are a prefix of the bytes read from the master, in the order in
/// which they were read: the sink never sees a byte before one that was read
/// earlier, and never sees a byte twice.
pub proof fn law_output_order(size_override: SizeOverride, capture_input: bool, replies: Seq<ReplyView>)
    requires
        answers(size_override, capture_input, replies),
    ensures
        ({
            let run = run_of(size_override, capture_input, replies);
            outputs(run.trace.sink).is_prefix_of(run.trace.from_master)
        }),
{
    lemma_run_sound(size_override, capture_input, replies);
    let run = run_of(size_override, capture_input, replies);
    let given = outputs(run.trace.sink);
    assert((given + unrecorded_output(run.state)).subrange(0, given.len() as int) =~= given);
}

/// Input capture. With capture enabled the sink is given as input exactly
/// the bytes read from the terminal, in order; with capture disabled it is
/// given none.
pub proof fn law_input_capture(size_override: SizeOverride, capture_input: bool, replies: Seq<ReplyView>)
    requires
        answers(size_override, capture_input, replies),
    ensures
        ({
            let run = run_of(size_override, capture_input, replies);
            &&& run.state.capture_input == capture_input
            &&& !capture_input ==> inputs(run.trace.sink) == Seq::<u8>::empty()
            &&& capture_input ==> inputs(run.trace.sink).is_prefix_of(run.trace.from_tty)
            &&& capture_input && run.state.phase != Phase::TtyReading ==> inputs(run.trace.sink)
                == run.trace.from_tty
        }),
    decreases replies.len(),
{
    lemma_run_sound(size_override, capture_input, replies);
    let run = run_of(size_override, capture_input, replies);
    let given = inputs(run.trace.sink);
    if capture_input {
        assert((given + unrecorded_input(run.state)).subrange(0, given.len() as int) =~= given);
        assert(given + Seq::<u8>::empty() =~= given);
    }
    if replies.len() > 0 {
        law_input_capture(size_override, capture_input, replies.drop_last());
        lemma_step_keeps_settings(
            run_of(size_override, capture_input, replies.drop_last()).state,
            replies.last(),
        );
    }
}

/// Start exactly once. If the sink was called at all, its first call was
/// `start` and no later call was; a session that ends with an exit code has
/// called `start`. So in every successful session `start` is called exactly
/// once, before every other call.
pub proof fn law_start_once(size_override: SizeOverride, capture_input: bool, replies: Seq<ReplyView>)
    requires
        answers(size_override, capture_input, replies),
    ensures
        ({
            let run = run_of(size_override, capture_input, replies);
            &&& run.command is Exit ==> run.trace.sink.len() > 0
            &&& run.trace.sink.len() > 0 ==> run.trace.sink[0] is Start
            &&& forall|i: int|
                0 < i < run.trace.sink.len() ==> !(#[trigger] run.trace.sink[i] is Start)
            &&& run.trace.pty_size is Some ==> run.trace.sink.len() > 0
        }),
{
    lemma_run_sound(size_override, capture_input, replies);
}

/// Nothing is lost on the way to the terminal. What the terminal accepted,
/// followed by what is still queued for it, is what was read from the
/// master; and a session that left its reactor because the master closed
/// had written all of it.
pub proof fn law_terminal_gets_everything(
    size_override: SizeOverride,
    capture_input: bool,
    replies: Seq<ReplyView>,
)
    requires
        answers(size_override, capture_input, replies),
    ensures
        ({
            let run = run_of(size_override, capture_input, replies);
            &&& run.trace.to_tty + run.state.to_tty == run.trace.from_master
            &&& run.trace.to_master + run.state.to_master == run.trace.from_tty
            &&& run.trace.departure == Some(Departure::Drained) ==> run.trace.to_tty
                == run.trace.from_master
        }),
{
    lemma_run_sound(size_override, capture_input, replies);
    let run = run_of(size_override, capture_input, replies);
    if run.state.to_tty.len() == 0 {
        assert(run.trace.to_tty + run.state.to_tty =~= run.trace.to_tty);
    }
}

/// Resize freshness, along a run. Whenever the sink is told of a new size,
/// the pseudo-terminal was last asked to take that very size, and it is the
/// size the session holds.
pub proof fn law_resize_agrees(size_override: SizeOverride, capture_input: bool, replies: Seq<ReplyView>)
    requires
        answers(size_override, capture_input, replies),
    ensures
        ({
            let run = run_of(size_override, capture_input, replies);
            &&& (run.command matches Command::RecordResize(size) ==> run.trace.pty_size == Some(
                size,
            ) && run.state.size == size)
            &&& (run.trace.pty_size matches Some(size) ==> run.state.size == size)
        }),
{
    lemma_run_sound(size_override, capture_input, replies);
}

/// Resize freshness, step by step. When the terminal has been measured
/// after a window change, the pseudo-terminal is asked to take the measured
/// size with the user's overrides applied (80 by 24 if measuring failed),
/// and whatever comes of that, the sink is told of the same size next.
pub proof fn law_resize_is_fresh(s: SessionView, measure: ReplyView, outcome: ReplyView)
    requires
        s.phase == Phase::Remeasuring,
        s.accepts(measure),
        step(s, measure).0.accepts(outcome),
    ensures
        ({
            let size = spec_effective_size(measure.measured(), s.size_override);
            let (resizing, first) = step(s, measure);
            let (recording, second) = step(resizing, outcome);
            &&& first == Command::ResizePty(size)
            &&& second == Command::RecordResize(size)
            &&& recording.size == size
        }),
{
}

/// A window change makes the session measure the terminal anew; an
/// interrupt is passed over; a request to terminate, to quit or a hang-up
/// makes it ask the child to terminate, after which it leaves.
pub proof fn law_signal_handling(s: SessionView, signals: Seq<Signal>, outcome: ReplyView)
    requires
        s.phase == Phase::TakingSignals,
        signals.len() > 0,
    ensures
        ({
            let (t, c) = step(s, ReplyView::Signals(signals));
            let rest = step(s, ReplyView::Signals(signals.skip(1)));
            &&& signals[0] == Signal::Winch ==> c == Command::MeasureTty && t.phase
                == Phase::Remeasuring
            &&& signals[0].spec_is_fatal() ==> c == Command::TerminateChild && step(t, outcome).1
                == Command::Reap
            &&& signals[0] == Signal::Int || signals[0] == Signal::Other ==> (t, c) == rest
        }),
{
    let first = SessionView { signals, ..s };
    assert(first.signals.skip(1) =~= signals.skip(1));
    assert((SessionView { signals: first.signals.skip(1), ..first }) == (SessionView {
        signals: signals.skip(1),
        ..s
    }));
}

/// One resize per window change. The sink is told of a resize once for
/// every window change among the signals taken, less those the session has
/// still to handle: never more often, and exactly as often whenever the
/// session waits for the next event.
pub proof fn law_one_resize_per_window_change(
    size_override: SizeOverride,
    capture_input: bool,
    replies: Seq<ReplyView>,
)
    requires
        answers(size_override, capture_input, replies),
    ensures
        ({
            let run = run_of(size_override, capture_input, replies);
            &&& resizes(run.trace.sink) + resizes_owed(run.state) == run.trace.window_changes
            &&& resizes(run.trace.sink) <= run.trace.window_changes
            &&& run.state.phase == Phase::Waiting ==> resizes(run.trace.sink)
                == run.trace.window_changes
        }),
{
    lemma_run_sound(size_override, capture_input, replies);
}

/// Backpressure. Whenever the session waits for the next event, the
/// terminal is registered for writing if and only if bytes are queued for
/// it, and so is the master as long as it is registered at all: a side that
/// has nothing to take is never watched for writability, and a side that is
/// owed bytes always is.
pub proof fn law_backpressure(size_override: SizeOverride, capture_input: bool, replies: Seq<ReplyView>)
    requires
        answers(size_override, capture_input, replies),
    ensures
        ({
            let run = run_of(size_override, capture_input, replies);
            run.state.phase == Phase::Waiting ==> {
                &&& run.trace.tty_interest == Some(fitting_interest(run.state.to_tty.len()))
                &&& (run.trace.master_interest matches Some(interest) ==> interest
                    == fitting_interest(run.state.to_master.len()))
                &&& run.state.flush ==> run.state.to_tty.len() > 0
            }
        }),
{
    lemma_run_sound(size_override, capture_input, replies);
}

/// Clean teardown. However a session ends, by then the terminal has been
/// asked back out of raw mode if it ever entered it, and the child has been
/// waited for if one was spawned. Before the child is spawned the terminal
/// is never in raw mode.
pub proof fn law_teardown(size_override: SizeOverride, capture_input: bool, replies: Seq<ReplyView>)
    requires
        answers(size_override, capture_input, replies),
    ensures
        ({
            let run = run_of(size_override, capture_input, replies);
            &&& run.command.spec_is_final() ==> !run.trace.raw_mode && !run.trace.child_unreaped
            &&& run.command == Command::Reap ==> !run.trace.raw_mode
            &&& run.trace.raw_mode ==> run.trace.child_unreaped
        }),
{
    lemma_run_sound(size_override, capture_input, replies);
}

/// A read or a write that would block is no error, and an interrupted wait
/// is tried again. When a read or a write fails the session goes on with
/// the event at hand and neither fails nor leaves; when a wait is
/// interrupted it waits again, unchanged.
pub proof fn law_would_block_is_no_error(s: SessionView)
    requires
        s.wf(),
    ensures
        s.phase == Phase::MasterReading || s.phase == Phase::TtyReading || s.phase
            == Phase::MasterWriting || s.phase == Phase::TtyWriting ==> {
            let (t, c) = step(s, ReplyView::Failed);
            &&& t.failure == s.failure
            &&& t.to_tty == s.to_tty
            &&& t.to_master == s.to_master
            &&& c != Command::Reap
            &&& !c.spec_is_final()
        },
        s.phase == Phase::Waiting ==> step(s, ReplyView::Interrupted) == (s, Command::Wait),
{
}

/// Exit code mapping. Once a session that did not fail has reaped its
/// child, it ends with the child's own status if the child exited, with 128
/// plus the signal's number if a signal killed the child, and with 1 for any
/// other report. A session that failed ends with its failure instead.
pub proof fn law_exit_code(s: SessionView, status: ChildStatus)
    requires
        s.phase == Phase::Reaping,
    ensures
        ({
            let c = step(s, ReplyView::Reaped(status)).1;
            &&& s.failure is None ==> c == Command::Exit(spec_exit_code(status) as i32)
            &&& s.failure is None ==> c == Command::Exit(
                match status {
                    ChildStatus::Exited(n) => n,
                    ChildStatus::Signaled(signal) => (128 + signal) as i32,
                    ChildStatus::Other => 1i32,
                },
            )
            &&& s.failure matches Some(error) ==> c == Command::Fail(error)
        }),
{
}

/// Once the reactor is left the sink is not called again: the reply to
/// `Reap` ends the session, and a finished session accepts no reply.
pub proof fn law_silence_after_leaving(s: SessionView, reply: ReplyView)
    ensures
        s.phase == Phase::Reaping ==> step(s, reply).1.spec_is_final() && step(s, reply).0.phase
            == Phase::Finished,
        s.phase == Phase::Finished ==> !s.accepts(reply),
{
}

} // verus!
