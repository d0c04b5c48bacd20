//! What holds of every run of the multiplexer, whatever the events are.

use crate::multiplexer::{cancels, Action, Awaited, Event, Failure, MultiplexerView, Phase};
use crate::telemetry::{
    elapsed_between, sample_at, time_ordered, Reading, TelemetrySample, INTERVAL_MS,
};
use vstd::prelude::*;

verus! {

/// Whether an event is an output line of either stream.
pub open spec fn is_line(event: Event) -> bool {
    event is StdoutLine || event is StderrLine
}

/// Whether an event is a timer tick without the cancellation key.
pub open spec fn is_quiet_tick(event: Event) -> bool {
    match event {
        Event::Tick { keys } => !cancels(keys@),
        _ => false,
    }
}

/// Whether an event is a timer tick with the cancellation key among its
/// pending inputs.
pub open spec fn is_cancelling_tick(event: Event) -> bool {
    match event {
        Event::Tick { keys } => cancels(keys@),
        _ => false,
    }
}

/// The lines that `events` carry for standard output, in their order.
pub open spec fn stdout_lines(events: Seq<Event>) -> Seq<Seq<char>>
    decreases events.len(),
{
    if events.len() == 0 {
        Seq::empty()
    } else {
        match events.last() {
            Event::StdoutLine(line) => stdout_lines(events.drop_last()).push(line@),
            _ => stdout_lines(events.drop_last()),
        }
    }
}

/// The lines that `events` carry for standard error, in their order.
pub open spec fn stderr_lines(events: Seq<Event>) -> Seq<Seq<char>>
    decreases events.len(),
{
    if events.len() == 0 {
        Seq::empty()
    } else {
        match events.last() {
            Event::StderrLine(line) => stderr_lines(events.drop_last()).push(line@),
            _ => stderr_lines(events.drop_last()),
        }
    }
}

/// Running one more event is one more transition.
pub proof fn lemma_run_push(m: MultiplexerView, events: Seq<Event>, event: Event)
    ensures
        m.run(events.push(event)) == m.run(events).transition(event).0,
{
    assert(events.push(event).drop_last() =~= events);
}

/// Running two sequences in a row is running the one behind the other.
pub proof fn lemma_run_concat(m: MultiplexerView, first: Seq<Event>, second: Seq<Event>)
    ensures
        m.run(first + second) == m.run(first).run(second),
    decreases second.len(),
{
    if second.len() == 0 {
    } else {
        lemma_run_concat(m, first, second.drop_last());
        assert((first + second).drop_last() =~= first + second.drop_last());
    }
}

/// Every transition leads from a well-formed state to a well-formed state.
pub proof fn law_transition_keeps_wf(m: MultiplexerView, event: Event)
    requires
        m.wf(),
    ensures
        m.transition(event).0.wf(),
{
}

/// Every run leads from a well-formed state to a well-formed state.
pub proof fn law_run_keeps_wf(m: MultiplexerView, events: Seq<Event>)
    requires
        m.wf(),
    ensures
        m.run(events).wf(),
    decreases events.len(),
{
    if events.len() > 0 {
        law_run_keeps_wf(m, events.drop_last());
        law_transition_keeps_wf(m.run(events.drop_last()), events.last());
    }
}

/// Once a run is over, no event changes its state any more: nothing is
/// logged, no sample is appended, and the phase stays.
pub proof fn law_over_is_final(m: MultiplexerView, events: Seq<Event>)
    requires
        m.is_over(),
    ensures
        m.run(events) == m,
    decreases events.len(),
{
    if events.len() > 0 {
        law_over_is_final(m, events.drop_last());
    }
}

/// From the launch on, the session and the two facts about the machine stay
/// as they are, and the logs and the samples only grow: whatever events
/// follow, what was logged and sampled before is still there, unchanged and
/// in its place.
pub proof fn law_logs_only_grow(m: MultiplexerView, events: Seq<Event>)
    requires
        m.wf(),
        m.dashboard is Some,
    ensures
        m.run(events).dashboard is Some,
        m.run(events).dashboard->0.session == m.dashboard->0.session,
        m.run(events).dashboard->0.total_memory == m.dashboard->0.total_memory,
        m.run(events).dashboard->0.cpu_count == m.dashboard->0.cpu_count,
        m.stdout().is_prefix_of(m.run(events).stdout()),
        m.stderr().is_prefix_of(m.run(events).stderr()),
        m.samples().is_prefix_of(m.run(events).samples()),
    decreases events.len(),
{
    if events.len() > 0 {
        law_logs_only_grow(m, events.drop_last());
        law_run_keeps_wf(m, events.drop_last());
    }
}

/// However the lines of the two streams are interleaved, each log grows by
/// exactly the lines of its own stream, in the order in which they came:
/// with N lines for standard output and M for standard error among the
/// events, the logs grow by N and by M entries. Nothing else changes.
pub proof fn law_lines_logged_in_order(m: MultiplexerView, events: Seq<Event>)
    requires
        m.wf(),
        m.is_live(),
        forall|i: int| 0 <= i < events.len() ==> is_line(#[trigger] events[i]),
    ensures
        m.run(events).stdout() == m.stdout() + stdout_lines(events),
        m.run(events).stderr() == m.stderr() + stderr_lines(events),
        m.run(events).stdout().len() == m.stdout().len() + stdout_lines(events).len(),
        m.run(events).stderr().len() == m.stderr().len() + stderr_lines(events).len(),
        stdout_lines(events).len() + stderr_lines(events).len() == events.len(),
        m.run(events).samples() == m.samples(),
        m.run(events).phase == m.phase,
        m.run(events).stdout_open == m.stdout_open,
        m.run(events).stderr_open == m.stderr_open,
        m.run(events).wf(),
    decreases events.len(),
{
    if events.len() > 0 {
        law_lines_logged_in_order(m, events.drop_last());
    }
}

/// The clock's values at which `events` report telemetry, in their order.
pub open spec fn clock_readings(events: Seq<Event>) -> Seq<u64>
    decreases events.len(),
{
    if events.len() == 0 {
        Seq::empty()
    } else {
        match events.last() {
            Event::Sampled { now_ms, reading } => clock_readings(events.drop_last()).push(now_ms),
            _ => clock_readings(events.drop_last()),
        }
    }
}

/// Whether no value is smaller than one before it.
pub open spec fn never_backwards(times: Seq<u64>) -> bool {
    forall|i: int, j: int| 0 <= i <= j < times.len() ==> times[i] <= times[j]
}

/// Whether no sample has a smaller elapsed time than one before it.
pub open spec fn never_earlier(samples: Seq<TelemetrySample>) -> bool {
    forall|i: int, j: int|
        0 <= i <= j < samples.len() ==> samples[i].elapsed_ms <= samples[j].elapsed_ms
}

/// What `law_monotonic_clock_orders_samples` carries through a run: the
/// samples are in order, and the last of them is no later than the last
/// reading of the clock.
spec fn ordered_so_far(m: MultiplexerView, events: Seq<Event>) -> bool {
    let end = m.run(events);
    let samples = end.samples();
    let times = clock_readings(events);
    &&& end.wf()
    &&& never_earlier(samples)
    &&& samples.len() > 0 ==> times.len() > 0 && samples.last().elapsed_ms <= elapsed_between(
        end.dashboard->0.session.started_at_ms,
        times.last(),
    )
}

/// With a clock that never runs backwards, the samples of a run never go
/// back in time, whatever events the run is made of.
pub proof fn law_monotonic_clock_orders_samples(m: MultiplexerView, events: Seq<Event>)
    requires
        m.wf(),
        m.samples().len() == 0,
        never_backwards(clock_readings(events)),
    ensures
        never_earlier(m.run(events).samples()),
{
    lemma_ordered_so_far(m, events);
}

proof fn lemma_ordered_so_far(m: MultiplexerView, events: Seq<Event>)
    requires
        m.wf(),
        m.samples().len() == 0,
        never_backwards(clock_readings(events)),
    ensures
        ordered_so_far(m, events),
    decreases events.len(),
{
    if events.len() > 0 {
        let before = events.drop_last();
        let event = events.last();
        let times = clock_readings(events);
        let times_before = clock_readings(before);
        assert(never_backwards(times_before)) by {
            assert forall|i: int, j: int| 0 <= i <= j < times_before.len() implies times_before[i]
                <= times_before[j] by {
                match event {
                    Event::Sampled { now_ms, reading } => {
                        assert(times[i] == times_before[i]);
                        assert(times[j] == times_before[j]);
                    },
                    _ => {},
                }
            }
        }
        lemma_ordered_so_far(m, before);
        if event is Sampled && times_before.len() > 0 {
            assert(times[times_before.len() - 1] <= times[times_before.len() as int]);
        }
    }
}

/// Whether `events` are `n` timer ticks, each one a tick without the
/// cancellation key followed by the telemetry provider's answer, the `k`-th
/// answer being `readings[k]` at the clock's value `times[k]`.
pub open spec fn are_ticks(events: Seq<Event>, times: Seq<u64>, readings: Seq<Reading>) -> bool {
    &&& times.len() == readings.len()
    &&& events.len() == 2 * times.len()
    &&& forall|k: int|
        0 <= k < times.len() ==> is_quiet_tick(#[trigger] events[2 * k]) && events[2 * k + 1] == (
        Event::Sampled { now_ms: times[k], reading: readings[k] })
}

/// Whether every tick fires on schedule: tick `k`, counted from zero, is due
/// `k` intervals after `start`, and fires at most `early` milliseconds
/// before and at most `late` milliseconds after it is due.
pub open spec fn on_schedule(times: Seq<u64>, start: u64, early: nat, late: nat) -> bool {
    forall|k: int|
        0 <= k < times.len() ==> start + k * INTERVAL_MS - early <= #[trigger] times[k] <= start
            + k * INTERVAL_MS + late
}

/// Timer ticks give one sample each, and nothing else changes.
pub proof fn lemma_ticks_sampled(
    m: MultiplexerView,
    events: Seq<Event>,
    times: Seq<u64>,
    readings: Seq<Reading>,
)
    requires
        m.wf(),
        m.phase is Running,
        are_ticks(events, times, readings),
    ensures
        m.run(events).phase is Running,
        m.run(events).wf(),
        m.run(events).dashboard->0.session == m.dashboard->0.session,
        m.run(events).stdout() == m.stdout(),
        m.run(events).stderr() == m.stderr(),
        m.run(events).samples().len() == m.samples().len() + times.len(),
        forall|k: int|
            0 <= k < m.samples().len() ==> m.run(events).samples()[k] == m.samples()[k],
        forall|k: int|
            0 <= k < times.len() ==> #[trigger] m.run(events).samples()[m.samples().len() + k]
                == sample_at(m.dashboard->0.session.started_at_ms, times[k], readings[k]),
    decreases times.len(),
{
    if times.len() > 0 {
        let n = times.len() - 1;
        let earlier = events.take(2 * n);
        assert(are_ticks(earlier, times.drop_last(), readings.drop_last())) by {
            assert forall|k: int| 0 <= k < n implies is_quiet_tick(#[trigger] earlier[2 * k])
                && earlier[2 * k + 1] == (Event::Sampled {
                now_ms: times.drop_last()[k],
                reading: readings.drop_last()[k],
            }) by {}
        }
        lemma_ticks_sampled(m, earlier, times.drop_last(), readings.drop_last());
        let tick = events[2 * n];
        let answer = events[2 * n + 1];
        assert(events =~= earlier.push(tick).push(answer));
        lemma_run_push(m, earlier, tick);
        lemma_run_push(m, earlier.push(tick), answer);
    }
}

/// For all sequences of timer ticks that fire on schedule, with less than
/// one interval between the earliest and the latest that a tick may be: the
/// run holds one sample per tick, the elapsed times of the samples increase
/// strictly, and the elapsed time of sample `k` is `k` intervals, within the
/// same tolerance.
pub proof fn law_ticks_sample_on_schedule(
    m: MultiplexerView,
    events: Seq<Event>,
    times: Seq<u64>,
    readings: Seq<Reading>,
    early: nat,
    late: nat,
)
    requires
        m.wf(),
        m.phase is Running,
        m.samples().len() == 0,
        are_ticks(events, times, readings),
        on_schedule(times, m.dashboard->0.session.started_at_ms, early, late),
        early + late < INTERVAL_MS,
    ensures
        m.run(events).phase is Running,
        m.run(events).samples().len() == times.len(),
        time_ordered(m.run(events).samples()),
        forall|k: int|
            0 <= k < times.len() ==> k * INTERVAL_MS - early <= (
            #[trigger] m.run(events).samples()[k]).elapsed_ms <= k * INTERVAL_MS + late,
        forall|k: int|
            0 <= k < times.len() ==> #[trigger] m.run(events).samples()[k] == sample_at(
                m.dashboard->0.session.started_at_ms,
                times[k],
                readings[k],
            ),
{
    lemma_ticks_sampled(m, events, times, readings);
    let start = m.dashboard->0.session.started_at_ms;
    let samples = m.run(events).samples();
    assert forall|k: int| 0 <= k < times.len() implies #[trigger] samples[k] == sample_at(
        start,
        times[k],
        readings[k],
    ) by {
        assert(samples[m.samples().len() + k] == sample_at(start, times[k], readings[k]));
    }
    assert forall|k: int| 0 <= k < times.len() implies k * INTERVAL_MS - early <= (
    #[trigger] samples[k]).elapsed_ms <= k * INTERVAL_MS + late by {
        assert(0 <= k * INTERVAL_MS) by (nonlinear_arith)
            requires
                0 <= k,
        ;
    }
    assert forall|i: int, j: int| 0 <= i < j < samples.len() implies samples[i].elapsed_ms
        < samples[j].elapsed_ms by {
        assert(i * INTERVAL_MS + INTERVAL_MS <= j * INTERVAL_MS) by (nonlinear_arith)
            requires
                i + 1 <= j,
        ;
    }
}

/// Whether an event is one that the streams give while draining: a line, or
/// the end of a stream.
pub open spec fn is_drained(event: Event) -> bool {
    is_line(event) || event is StdoutClosed || event is StderrClosed
}

/// Whether standard output reports its end among `events`.
pub open spec fn closes_stdout(events: Seq<Event>) -> bool {
    exists|i: int| 0 <= i < events.len() && events[i] is StdoutClosed
}

/// Whether standard error reports its end among `events`.
pub open spec fn closes_stderr(events: Seq<Event>) -> bool {
    exists|i: int| 0 <= i < events.len() && events[i] is StderrClosed
}

/// Draining ends exactly when both streams have reported their ends, in
/// whichever order the lines and the ends come; it then ends with the exit
/// code that the child gave.
pub proof fn law_draining_ends_with_both_streams(
    d: MultiplexerView,
    code: i32,
    events: Seq<Event>,
)
    requires
        d.wf(),
        d.phase == Phase::Draining(code),
        forall|i: int| 0 <= i < events.len() ==> is_drained(#[trigger] events[i]),
    ensures
        d.run(events).stdout_open == (d.stdout_open && !closes_stdout(events)),
        d.run(events).stderr_open == (d.stderr_open && !closes_stderr(events)),
        d.run(events).phase == if d.run(events).stdout_open || d.run(events).stderr_open {
            Phase::Draining(code)
        } else {
            Phase::Exited(code)
        },
        d.run(events).wf(),
    decreases events.len(),
{
    if events.len() > 0 {
        let before = events.drop_last();
        law_draining_ends_with_both_streams(d, code, before);
        if closes_stdout(events) && !(events.last() is StdoutClosed) {
            let i = choose|i: int| 0 <= i < events.len() && events[i] is StdoutClosed;
            assert(before[i] is StdoutClosed);
        }
        if closes_stderr(events) && !(events.last() is StderrClosed) {
            let i = choose|i: int| 0 <= i < events.len() && events[i] is StderrClosed;
            assert(before[i] is StderrClosed);
        }
    }
}

/// While draining, every line that arrives is logged behind the lines of its
/// own stream, in whichever order the lines and the ends of the streams
/// come, and no sample is added.
pub proof fn law_draining_logs_every_line(d: MultiplexerView, code: i32, events: Seq<Event>)
    requires
        d.wf(),
        d.phase == Phase::Draining(code),
        forall|i: int| 0 <= i < events.len() ==> is_drained(#[trigger] events[i]),
        events.len() > 0 ==> d.run(events.drop_last()).phase is Draining,
    ensures
        d.run(events).stdout() == d.stdout() + stdout_lines(events),
        d.run(events).stderr() == d.stderr() + stderr_lines(events),
        d.run(events).samples() == d.samples(),
    decreases events.len(),
{
    if events.len() > 0 {
        let before = events.drop_last();
        if before.len() > 0 {
            law_draining_ends_with_both_streams(d, code, before.drop_last());
        }
        law_draining_logs_every_line(d, code, before);
    }
}

/// If the child exits before any timer tick has fired, the run ends without
/// a single sample and with every line in its log: those that came before
/// the exit, and those that were still buffered and came while draining, in
/// whichever order the lines and the ends of the two streams came. The run
/// ends with the second stream's end, and with the child's exit code.
pub proof fn law_exit_before_first_tick(
    m: MultiplexerView,
    before: Seq<Event>,
    code: i32,
    drained: Seq<Event>,
)
    requires
        m.wf(),
        m.phase is Running,
        m.stdout_open,
        m.stderr_open,
        m.samples().len() == 0,
        forall|i: int| 0 <= i < before.len() ==> is_line(#[trigger] before[i]),
        forall|i: int| 0 <= i < drained.len() ==> is_drained(#[trigger] drained[i]),
        closes_stdout(drained),
        closes_stderr(drained),
        !(closes_stdout(drained.drop_last()) && closes_stderr(drained.drop_last())),
    ensures
        ({
            let exited = before.push(Event::ChildExited { code });
            let end = m.run(exited + drained);
            &&& m.run(exited).phase == Phase::Draining(code)
            &&& m.run(exited + drained.drop_last()).phase == Phase::Draining(code)
            &&& end.phase == Phase::Exited(code)
            &&& end.samples().len() == 0
            &&& end.stdout() == m.stdout() + stdout_lines(before) + stdout_lines(drained)
            &&& end.stderr() == m.stderr() + stderr_lines(before) + stderr_lines(drained)
        }),
{
    let exit = Event::ChildExited { code };
    let exited = before.push(exit);
    law_lines_logged_in_order(m, before);
    lemma_run_push(m, before, exit);
    let draining = m.run(exited);
    let earlier = drained.drop_last();
    law_draining_ends_with_both_streams(draining, code, earlier);
    law_draining_ends_with_both_streams(draining, code, drained);
    law_draining_logs_every_line(draining, code, drained);
    lemma_run_concat(m, exited, drained);
    lemma_run_concat(m, exited, earlier);
}

/// A timer tick that finds the cancellation key among the pending inputs
/// ends the run at once, whatever else is pending: no sample is asked for,
/// and whatever events follow, no sample and no line is added.
pub proof fn law_cancel_ends_run(m: MultiplexerView, tick: Event, later: Seq<Event>)
    requires
        m.wf(),
        m.phase is Running,
        is_cancelling_tick(tick),
    ensures
        m.transition(tick).0.phase is Cancelled,
        m.transition(tick).1 == Action::Shutdown,
        m.transition(tick).0 == m.in_phase(Phase::Cancelled),
        m.transition(tick).0.run(later) == m.transition(tick).0,
        m.transition(tick).0.run(later).samples() == m.samples(),
{
    law_over_is_final(m.transition(tick).0, later);
}

/// While a run is not over, there is something to wait on: the timer and the
/// child while the child runs, and an output stream that is not at its end
/// while draining. The timer and the child are awaited in no other phase.
pub proof fn law_live_run_awaits(m: MultiplexerView)
    requires
        m.wf(),
    ensures
        m.phase is Running ==> m.awaited().timer && m.awaited().exit,
        m.phase is Draining ==> !m.awaited().timer && !m.awaited().exit && (m.awaited().stdout
            || m.awaited().stderr),
        m.is_over() || m.phase is Spawning ==> m.awaited() == (Awaited {
            timer: false,
            exit: false,
            stdout: false,
            stderr: false,
        }),
{
}

/// The terminal is set up exactly when the launch has succeeded: no other
/// event and no other phase asks for it, and a failed launch ends the run
/// without touching the terminal.
pub proof fn law_terminal_follows_launch(m: MultiplexerView, event: Event)
    requires
        m.wf(),
    ensures
        m.transition(event).1 == Action::EnterTerminal <==> m.phase is Spawning
            && event is Launched,
        m.phase is Spawning && event is Failed ==> m.transition(event).1 == Action::Abort
            && m.transition(event).0.phase == Phase::Failed(event->Failed_0),
        m.transition(event).1 == Action::Shutdown ==> m.dashboard is Some,
{
}

/// Whatever is appended is painted before the next event: every event that
/// adds a sample or a line calls for a redraw.
pub proof fn law_redraw_follows_append(m: MultiplexerView, event: Event)
    requires
        m.wf(),
        m.dashboard is Some,
        m.transition(event).0.dashboard != m.dashboard,
    ensures
        m.transition(event).1 == Action::Redraw,
        m.is_live(),
{
}

/// Every failure ends a run that is not over yet, in whatever phase it
/// arrives, and keeps what was logged and sampled until then.
pub proof fn law_failure_is_fatal(m: MultiplexerView, failure: Failure)
    requires
        m.wf(),
        !m.is_over(),
    ensures
        m.transition(Event::Failed(failure)).0 == m.in_phase(Phase::Failed(failure)),
        m.transition(Event::Failed(failure)).1 == m.leave(),
{
}

} // verus!
