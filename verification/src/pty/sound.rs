//! The invariant of runs, and the proof that every step keeps it.

use vstd::prelude::*;
use crate::pty::model::{
    at_master, at_signals, at_tty, command_out, lemma_next_signal_shape, lemma_step_keeps_wf,
    next_signal, preparing, step, step_is_proper, Phase, SessionView,
};
use crate::pty::protocol::{Command, ReplyView, SinkCall};
use crate::pty::run::{
    answers, extend, fitting_interest, inputs, outputs, resizes, run_of, window_changes, Departure,
    Run,
};
use crate::pty::size::SizeOverride;

verus! {

/// The bytes read from the master in the run of reads under way, which the
/// sink has not been given yet.
pub open spec fn unrecorded_output(s: SessionView) -> Seq<u8> {
    if s.phase == Phase::MasterReading {
        s.to_tty.skip(s.mark as int)
    } else {
        Seq::empty()
    }
}

/// The bytes read from the terminal in the run of reads under way.
pub open spec fn unrecorded_input(s: SessionView) -> Seq<u8> {
    if s.phase == Phase::TtyReading {
        s.to_master.skip(s.mark as int)
    } else {
        Seq::empty()
    }
}

/// Whether the phase comes before the sink was started.
pub open spec fn before_start(phase: Phase) -> bool {
    phase == Phase::OpeningTty || phase == Phase::Measuring
}

/// Whether the phase comes before the child was spawned.
pub open spec fn before_spawn(phase: Phase) -> bool {
    before_start(phase) || phase == Phase::Starting
}

/// No byte is lost or reordered on the way to the terminal or to the master.
pub open spec fn bytes_conserved(run: Run) -> bool {
    &&& run.trace.to_tty + run.state.to_tty == run.trace.from_master
    &&& run.trace.to_master + run.state.to_master == run.trace.from_tty
}

/// The sink was given exactly what was read, in the order read.
pub open spec fn sink_faithful(run: Run) -> bool {
    &&& outputs(run.trace.sink) + unrecorded_output(run.state) == run.trace.from_master
    &&& run.state.capture_input ==> inputs(run.trace.sink) + unrecorded_input(run.state)
        == run.trace.from_tty
    &&& !run.state.capture_input ==> inputs(run.trace.sink) == Seq::<u8>::empty()
}

/// `start` is the first call on the sink and is never repeated.
pub open spec fn started_once(run: Run) -> bool {
    &&& before_start(run.state.phase) ==> run.trace.sink.len() == 0
    &&& !before_start(run.state.phase) && run.state.phase != Phase::Finished
        ==> run.trace.sink.len() > 0
    &&& run.command is Exit ==> run.trace.sink.len() > 0
    &&& run.trace.pty_size is Some ==> run.trace.sink.len() > 0
    &&& run.trace.sink.len() > 0 ==> run.trace.sink[0] is Start
    &&& forall|i: int| 0 < i < run.trace.sink.len() ==> !(#[trigger] run.trace.sink[i] is Start)
}

/// The session believes the pseudo-terminal to have the size it was last asked to have.
pub open spec fn size_agreed(run: Run) -> bool {
    &&& before_spawn(run.state.phase) ==> run.trace.pty_size is None
    &&& !before_spawn(run.state.phase) && run.state.phase != Phase::Finished
        ==> run.trace.pty_size == Some(run.state.size)
    &&& run.trace.pty_size is Some ==> run.trace.pty_size == Some(run.state.size)
}

/// The reactor is left once, and left as drained only with nothing owed to the terminal.
pub open spec fn departed_properly(run: Run) -> bool {
    &&& run.trace.departure is Some ==> run.state.phase == Phase::Reaping || run.state.phase
        == Phase::Finished
    &&& run.state.phase == Phase::Reaping ==> run.trace.departure is Some
    &&& run.trace.departure == Some(Departure::Drained) ==> run.state.to_tty.len() == 0
    &&& run.trace.departure is Some ==> (run.trace.departure == Some(Departure::Failed)
        <==> run.state.failure is Some)
    &&& run.trace.departure is None ==> run.state.failure is None
    &&& run.command is Exit ==> run.trace.departure is Some && run.state.failure is None
}

/// Window changes that the session has taken note of and not yet told the sink about.
pub open spec fn resizes_owed(s: SessionView) -> nat {
    window_changes(s.signals) + if s.phase == Phase::Remeasuring || s.phase == Phase::ResizingPty {
        1nat
    } else {
        0nat
    }
}

/// Every window change is answered by one `resize` call, and there is no other.
pub open spec fn resizes_counted(run: Run) -> bool {
    &&& resizes(run.trace.sink) + resizes_owed(run.state) == run.trace.window_changes
    &&& run.state.signals.len() > 0 ==> run.state.phase == Phase::Remeasuring || run.state.phase
        == Phase::ResizingPty || run.state.phase == Phase::RecordingResize || run.state.phase
        == Phase::Terminating || run.state.phase == Phase::Reaping || run.state.phase
        == Phase::Finished
}

/// Whether the terminal is registered, as far as the phase tells.
pub open spec fn tty_unregistered(phase: Phase) -> bool {
    before_spawn(phase) || phase == Phase::Spawning || phase == Phase::OpeningPoller || phase
        == Phase::EnteringRawMode || phase == Phase::WatchingSignals || phase
        == Phase::UnblockingMaster || phase == Phase::UnblockingTty || phase
        == Phase::RegisteringMaster
}

/// Whether the session has left its reactor, or is about to without a further wait.
pub open spec fn leaving(phase: Phase) -> bool {
    phase == Phase::TtyClosing || phase == Phase::Terminating || phase == Phase::Reaping || phase
        == Phase::Finished
}

/// A source is watched for writability exactly while bytes are queued for
/// it. In the middle of a run of reads the registration still fits the queue
/// as it was when the run began.
pub open spec fn interest_fits(run: Run) -> bool {
    let s = run.state;
    let t = run.trace;
    &&& tty_unregistered(s.phase) ==> t.tty_interest is None
    &&& tty_unregistered(s.phase) && s.phase != Phase::RegisteringMaster ==> t.master_interest is None
    &&& tty_unregistered(s.phase) ==> s.to_tty.len() == 0 && s.to_master.len() == 0
    &&& !tty_unregistered(s.phase) && !leaving(s.phase) ==> t.tty_interest == Some(
        fitting_interest(
            if s.phase == Phase::MasterReading || s.phase == Phase::MasterRecording {
                s.mark
            } else {
                s.to_tty.len()
            },
        ),
    )
    &&& !leaving(s.phase) ==> (t.master_interest matches Some(interest) ==> interest
        == fitting_interest(
        if s.phase == Phase::TtyReading || s.phase == Phase::TtyRecording {
            s.mark
        } else {
            s.to_master.len()
        },
    ))
    &&& s.flush ==> s.to_tty.len() > 0 || leaving(s.phase)
    &&& s.phase == Phase::MasterRecording ==> s.to_tty.len() > s.mark
    &&& s.phase == Phase::TtyRecording ==> s.to_master.len() > s.mark
}

/// Whether the phase lies between spawning the child and waiting for it.
pub open spec fn child_runs(phase: Phase) -> bool {
    !before_spawn(phase) && phase != Phase::Spawning && phase != Phase::Finished
}

/// Whether the phase lies between entering raw mode and leaving the reactor.
pub open spec fn in_raw_mode(phase: Phase) -> bool {
    child_runs(phase) && phase != Phase::OpeningPoller && phase != Phase::EnteringRawMode && phase
        != Phase::Reaping
}

/// The terminal is in raw mode only while the reactor runs, and a child is
/// waited for before the session is over.
pub open spec fn cleaned_up(run: Run) -> bool {
    &&& run.trace.raw_mode <==> in_raw_mode(run.state.phase)
    &&& run.trace.child_unreaped <==> child_runs(run.state.phase)
}

/// The command that is out is the one the state calls for, and the session
/// is over exactly when that command ends it.
pub open spec fn command_fits(run: Run) -> bool {
    &&& run.state.phase == Phase::Finished <==> run.command.spec_is_final()
    &&& run.state.phase != Phase::Finished ==> run.command == command_out(run.state)
}

/// What holds after every reply of every run.
pub open spec fn sound(run: Run) -> bool {
    &&& run.state.wf()
    &&& command_fits(run)
    &&& bytes_conserved(run)
    &&& sink_faithful(run)
    &&& started_once(run)
    &&& size_agreed(run)
    &&& departed_properly(run)
    &&& resizes_counted(run)
    &&& interest_fits(run)
    &&& cleaned_up(run)
}

proof fn lemma_outputs_push(sink: Seq<SinkCall>, call: SinkCall)
    ensures
        outputs(sink.push(call)) == outputs(sink) + (match call {
            SinkCall::Output(bytes) => bytes,
            _ => Seq::empty(),
        }),
        inputs(sink.push(call)) == inputs(sink) + (match call {
            SinkCall::Input(bytes) => bytes,
            _ => Seq::empty(),
        }),
        resizes(sink.push(call)) == resizes(sink) + if call is Resize {
            1nat
        } else {
            0nat
        },
{
    assert(sink.push(call).drop_last() =~= sink);
    assert(sink.push(call).last() == call);
}

proof fn lemma_sound_preparing(run: Run, reply: ReplyView)
    requires
        sound(run),
        run.state.accepts(reply),
        step_is_proper(run.state, reply),
        preparing(run.state.phase),
    ensures
        sound(extend(run, reply)),
{
    lemma_outputs_push(run.trace.sink, SinkCall::Start(extend(run, reply).state.size));
}

proof fn lemma_sound_waiting(run: Run, reply: ReplyView)
    requires
        sound(run),
        run.state.accepts(reply),
        step_is_proper(run.state, reply),
        run.state.phase == Phase::Waiting,
    ensures
        sound(extend(run, reply)),
{
    let s = run.state;
    assert(s.to_tty.skip(s.to_tty.len() as int) =~= Seq::<u8>::empty());
    assert(s.to_master.skip(s.to_master.len() as int) =~= Seq::<u8>::empty());
}

proof fn lemma_sound_master(run: Run, reply: ReplyView)
    requires
        sound(run),
        run.state.accepts(reply),
        step_is_proper(run.state, reply),
        at_master(run.state.phase),
    ensures
        sound(extend(run, reply)),
{
    let s = run.state;
    let t = run.trace;
    let next = extend(run, reply);
    match s.phase {
        Phase::MasterReading => {
            let fresh = s.to_tty.skip(s.mark as int);
            lemma_outputs_push(t.sink, SinkCall::Output(fresh));
            assert(outputs(t.sink) + fresh + Seq::<u8>::empty() =~= outputs(t.sink) + fresh);
            if let ReplyView::Data(bytes) = reply {
                assert(t.to_tty + (s.to_tty + bytes) =~= (t.to_tty + s.to_tty) + bytes);
                assert((s.to_tty + bytes).skip(s.mark as int) =~= fresh + bytes);
                assert(outputs(t.sink) + (fresh + bytes) =~= (outputs(t.sink) + fresh) + bytes);
                if bytes.len() == 0 {
                    assert(t.from_master + bytes =~= t.from_master);
                }
            }
            if s.to_tty.len() == s.mark {
                assert(fresh =~= Seq::<u8>::empty());
            }
        },
        Phase::MasterWriting => {
            if let ReplyView::Written(n) = reply {
                assert((t.to_master + s.to_master.take(n as int)) + s.to_master.skip(n as int)
                    =~= t.to_master + s.to_master);
            }
        },
        _ => {},
    }
}

proof fn lemma_sound_tty(run: Run, reply: ReplyView)
    requires
        sound(run),
        run.state.accepts(reply),
        step_is_proper(run.state, reply),
        at_tty(run.state.phase),
    ensures
        sound(extend(run, reply)),
{
    let s = run.state;
    let t = run.trace;
    let next = extend(run, reply);
    match s.phase {
        Phase::TtyReading => {
            let fresh = s.to_master.skip(s.mark as int);
            lemma_outputs_push(t.sink, SinkCall::Input(fresh));
            assert(inputs(t.sink) + fresh + Seq::<u8>::empty() =~= inputs(t.sink) + fresh);
            if let ReplyView::Data(bytes) = reply {
                assert(t.to_master + (s.to_master + bytes) =~= (t.to_master + s.to_master) + bytes);
                assert((s.to_master + bytes).skip(s.mark as int) =~= fresh + bytes);
                assert(inputs(t.sink) + (fresh + bytes) =~= (inputs(t.sink) + fresh) + bytes);
                if bytes.len() == 0 {
                    assert(t.from_tty + bytes =~= t.from_tty);
                }
            }
            if s.to_master.len() == s.mark {
                assert(fresh =~= Seq::<u8>::empty());
            }
        },
        Phase::TtyWriting => {
            if let ReplyView::Written(n) = reply {
                assert((t.to_tty + s.to_tty.take(n as int)) + s.to_tty.skip(n as int) =~= t.to_tty
                    + s.to_tty);
            }
            assert(s.to_master.skip(s.to_master.len() as int) =~= Seq::<u8>::empty());
        },
        Phase::TtyDisarming => {
            assert(s.to_master.skip(s.to_master.len() as int) =~= Seq::<u8>::empty());
        },
        _ => {},
    }
}

/// Handling signals uses up one window change if it ends in measuring the
/// terminal, and none otherwise.
proof fn lemma_next_signal_counts(s: SessionView)
    ensures
        ({
            let (t, c) = next_signal(s);
            window_changes(t.signals) + (if c == Command::MeasureTty {
                1nat
            } else {
                0nat
            }) == window_changes(s.signals)
        }),
    decreases s.signals.len(),
{
    if s.signals.len() > 0 {
        let rest = SessionView { signals: s.signals.skip(1), ..s };
        lemma_next_signal_counts(rest);
    }
}

proof fn lemma_sound_signals(run: Run, reply: ReplyView)
    requires
        sound(run),
        run.state.accepts(reply),
        step_is_proper(run.state, reply),
        at_signals(run.state.phase),
    ensures
        sound(extend(run, reply)),
{
    let s = run.state;
    lemma_next_signal_shape(s);
    lemma_next_signal_counts(s);
    if let ReplyView::Signals(signals) = reply {
        lemma_next_signal_shape(SessionView { signals, ..s });
        lemma_next_signal_counts(SessionView { signals, ..s });
    }
    lemma_outputs_push(run.trace.sink, SinkCall::Resize(s.size));
}

proof fn lemma_sound_reaping(run: Run, reply: ReplyView)
    requires
        sound(run),
        run.state.accepts(reply),
        step_is_proper(run.state, reply),
        run.state.phase == Phase::Reaping,
    ensures
        sound(extend(run, reply)),
{
}

/// Every reply that answers the command that is out keeps a sound run sound.
pub proof fn lemma_sound_extend(run: Run, reply: ReplyView)
    requires
        sound(run),
        run.state.accepts(reply),
    ensures
        sound(extend(run, reply)),
{
    let phase = run.state.phase;
    lemma_step_keeps_wf(run.state, reply);
    if preparing(phase) {
        lemma_sound_preparing(run, reply);
    } else if phase == Phase::Waiting {
        lemma_sound_waiting(run, reply);
    } else if at_master(phase) {
        lemma_sound_master(run, reply);
    } else if at_tty(phase) {
        lemma_sound_tty(run, reply);
    } else if at_signals(phase) {
        lemma_sound_signals(run, reply);
    } else {
        lemma_sound_reaping(run, reply);
    }
}

/// Every run in which each reply answers the command that was out is sound.
pub proof fn lemma_run_sound(size_override: SizeOverride, capture_input: bool, replies: Seq<ReplyView>)
    requires
        answers(size_override, capture_input, replies),
    ensures
        sound(run_of(size_override, capture_input, replies)),
    decreases replies.len(),
{
    if replies.len() > 0 {
        lemma_run_sound(size_override, capture_input, replies.drop_last());
        lemma_sound_extend(
            run_of(size_override, capture_input, replies.drop_last()),
            replies.last(),
        );
    }
}

/// The settings a session was begun with never change.
pub proof fn lemma_step_keeps_settings(s: SessionView, reply: ReplyView)
    ensures
        step(s, reply).0.capture_input == s.capture_input,
        step(s, reply).0.size_override == s.size_override,
{
    lemma_next_signal_shape(s);
    if let ReplyView::Signals(signals) = reply {
        lemma_next_signal_shape(SessionView { signals, ..s });
    }
    if preparing(s.phase) {
    } else if s.phase == Phase::Waiting {
    } else if at_master(s.phase) {
    } else if at_tty(s.phase) {
    } else if at_signals(s.phase) {
    } else {
    }
}

} // verus!
