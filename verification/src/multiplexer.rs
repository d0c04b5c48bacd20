//! The event multiplexer: from the state of a supervised run and one event to
//! the next state and the next thing to do.
//!
//! The multiplexer does no waiting, reading or painting of its own. The
//! program that drives it waits for whichever event source is ready first,
//! hands the event to [`Multiplexer::step`], and carries out the action that
//! comes back.

use crate::command::{CommandLine, CommandLineView};
use crate::dashboard::{DashboardState, DashboardView, ProcessSession, SessionView};
use crate::telemetry::{Reading, TelemetrySample};
use vstd::prelude::*;

verus! {

/// The key that ends the dashboard and leaves the child alone.
pub const CANCEL_KEY: char = 'q';

/// Why a run was given up.
///
/// Every failure is fatal: the run ends at once, nothing is tried again, and a
/// sample whose lookup fails is not skipped.
#[derive(Clone, Copy, Debug, PartialEq, Eq, Structural)]
pub enum Failure {
    /// The command could not be started.
    Launch,
    /// The terminal could not be set up or restored.
    TerminalSetup,
    /// One of the child's output streams could not be read.
    StreamRead,
    /// The telemetry provider does not know the child.
    TelemetryLookup,
    /// A frame could not be painted.
    Render,
}

/// Where a supervised run stands.
#[derive(Clone, Copy, Debug, PartialEq, Eq, Structural)]
pub enum Phase {
    /// The child has not been launched yet.
    Spawning,
    /// The child runs and is watched.
    Running,
    /// The child has exited with this code; what its streams still hold is
    /// read to the end.
    Draining(i32),
    /// The user has ended the dashboard; the child is left as it is.
    Cancelled,
    /// The child has exited with this code and its output was read to the end.
    Exited(i32),
    /// The run was given up.
    Failed(Failure),
}

/// One input read from the terminal.
#[derive(Clone, Copy, Debug, PartialEq, Eq, Structural)]
pub enum KeyInput {
    /// A key that stands for a character.
    Char(char),
    /// Any other key or input.
    Other,
}

/// What the driving program reports to the multiplexer.
#[derive(Debug)]
pub enum Event {
    /// The child was spawned; the machine has `total_memory` bytes of memory
    /// and `cpu_count` logical CPUs.
    Launched { pid: u32, started_at_ms: u64, total_memory: u64, cpu_count: u32 },
    /// The timer fired; `keys` are all inputs that were pending, oldest first.
    Tick { keys: Vec<KeyInput> },
    /// The telemetry provider answered when the clock read `now_ms`.
    Sampled { now_ms: u64, reading: Reading },
    /// The child exited.
    ChildExited { code: i32 },
    /// The child wrote a line to standard output.
    StdoutLine(String),
    /// The child wrote a line to standard error.
    StderrLine(String),
    /// Standard output is at its end.
    StdoutClosed,
    /// Standard error is at its end.
    StderrClosed,
    /// Something the run depends on went wrong.
    Failed(Failure),
}

/// The event sources that the driving program waits on.
#[derive(Clone, Copy, Debug, PartialEq, Eq, Structural)]
pub struct Awaited {
    /// The timer's next tick.
    pub timer: bool,
    /// The child's exit.
    pub exit: bool,
    /// The next line, or the end, of standard output.
    pub stdout: bool,
    /// The next line, or the end, of standard error.
    pub stderr: bool,
}

/// What the driving program does next.
#[derive(Clone, Copy, Debug, PartialEq, Eq, Structural)]
pub enum Action {
    /// Wait for the next event from the awaited sources.
    Wait,
    /// Set up the terminal, then wait for the next event.
    EnterTerminal,
    /// Ask the telemetry provider for the child's figures and report them.
    Sample,
    /// Paint a frame from the dashboard state, then wait for the next event.
    Redraw,
    /// The run is over: restore the terminal and leave.
    Shutdown,
    /// The run is over and the terminal was never set up: leave.
    Abort,
}

/// Whether one of the pending inputs is the cancellation key.
pub open spec fn cancels(keys: Seq<KeyInput>) -> bool {
    exists|i: int| 0 <= i < keys.len() && keys[i] == KeyInput::Char(CANCEL_KEY)
}

/// What a multiplexer holds.
pub struct MultiplexerView {
    pub phase: Phase,
    pub command: CommandLineView,
    pub dashboard: Option<DashboardView>,
    pub stdout_open: bool,
    pub stderr_open: bool,
}

impl MultiplexerView {
    /// The state before the child is launched.
    pub open spec fn initial(command: CommandLineView) -> MultiplexerView {
        MultiplexerView {
            phase: Phase::Spawning,
            command,
            dashboard: None,
            stdout_open: true,
            stderr_open: true,
        }
    }

    /// What every state that a run can reach has: a dashboard from the launch
    /// on and none before it, showing the command that was asked for.
    pub open spec fn wf(self) -> bool {
        &&& self.phase is Spawning ==> self.dashboard is None && self.stdout_open
            && self.stderr_open
        &&& self.is_live() || self.phase is Cancelled || self.phase is Exited
            ==> self.dashboard is Some
        &&& self.dashboard is Some ==> self.dashboard->0.session.command == self.command
        &&& self.phase is Draining ==> self.stdout_open || self.stderr_open
        &&& self.phase is Exited ==> !self.stdout_open && !self.stderr_open
    }

    /// Whether the child is watched or its output is still being read.
    pub open spec fn is_live(self) -> bool {
        self.phase is Running || self.phase is Draining
    }

    /// Whether the run is over.
    pub open spec fn is_over(self) -> bool {
        self.phase is Cancelled || self.phase is Exited || self.phase is Failed
    }

    /// The samples taken so far.
    pub open spec fn samples(self) -> Seq<TelemetrySample> {
        match self.dashboard {
            Some(dashboard) => dashboard.samples,
            None => Seq::empty(),
        }
    }

    /// The lines of standard output logged so far.
    pub open spec fn stdout(self) -> Seq<Seq<char>> {
        match self.dashboard {
            Some(dashboard) => dashboard.stdout,
            None => Seq::empty(),
        }
    }

    /// The lines of standard error logged so far.
    pub open spec fn stderr(self) -> Seq<Seq<char>> {
        match self.dashboard {
            Some(dashboard) => dashboard.stderr,
            None => Seq::empty(),
        }
    }

    /// The sources to wait on: all that are still open while the child runs,
    /// only the output streams once it has exited, and none before the launch
    /// or after the end.
    pub open spec fn awaited(self) -> Awaited {
        Awaited {
            timer: self.phase is Running,
            exit: self.phase is Running,
            stdout: self.is_live() && self.stdout_open,
            stderr: self.is_live() && self.stderr_open,
        }
    }

    /// How a run ends from here: with the terminal restored where it was set
    /// up.
    pub open spec fn leave(self) -> Action {
        if self.dashboard is Some {
            Action::Shutdown
        } else {
            Action::Abort
        }
    }

    /// The same state in another phase.
    pub open spec fn in_phase(self, phase: Phase) -> MultiplexerView {
        MultiplexerView { phase, ..self }
    }

    /// The state after the launch.
    pub open spec fn launched(
        self,
        pid: u32,
        started_at_ms: u64,
        total_memory: u64,
        cpu_count: u32,
    ) -> MultiplexerView {
        MultiplexerView {
            phase: Phase::Running,
            dashboard: Some(
                DashboardView::fresh(
                    SessionView { pid, command: self.command, started_at_ms },
                    total_memory,
                    cpu_count,
                ),
            ),
            ..self
        }
    }

    /// The state after one more sample.
    pub open spec fn sampled(self, now_ms: u64, reading: Reading) -> MultiplexerView {
        MultiplexerView {
            dashboard: match self.dashboard {
                Some(dashboard) => Some(dashboard.with_reading(now_ms, reading)),
                None => None,
            },
            ..self
        }
    }

    /// The state after one more line on standard output.
    pub open spec fn logged_stdout(self, line: Seq<char>) -> MultiplexerView {
        MultiplexerView {
            dashboard: match self.dashboard {
                Some(dashboard) => Some(dashboard.with_stdout(line)),
                None => None,
            },
            ..self
        }
    }

    /// The state after one more line on standard error.
    pub open spec fn logged_stderr(self, line: Seq<char>) -> MultiplexerView {
        MultiplexerView {
            dashboard: match self.dashboard {
                Some(dashboard) => Some(dashboard.with_stderr(line)),
                None => None,
            },
            ..self
        }
    }

    /// What an event does before the launch: only the launch's outcome counts.
    pub open spec fn while_spawning(self, event: Event) -> (MultiplexerView, Action) {
        match event {
            Event::Launched { pid, started_at_ms, total_memory, cpu_count } => (
                self.launched(pid, started_at_ms, total_memory, cpu_count),
                Action::EnterTerminal,
            ),
            Event::Failed(failure) => (self.in_phase(Phase::Failed(failure)), self.leave()),
            _ => (self, Action::Wait),
        }
    }

    /// What an event does while the child runs.
    pub open spec fn while_running(self, event: Event) -> (MultiplexerView, Action) {
        match event {
            Event::Launched { .. } => (self, Action::Wait),
            Event::Tick { keys } => if cancels(keys@) {
                (self.in_phase(Phase::Cancelled), self.leave())
            } else {
                (self, Action::Sample)
            },
            Event::Sampled { now_ms, reading } => (self.sampled(now_ms, reading), Action::Redraw),
            Event::ChildExited { code } => if self.stdout_open || self.stderr_open {
                (self.in_phase(Phase::Draining(code)), Action::Wait)
            } else {
                (self.in_phase(Phase::Exited(code)), self.leave())
            },
            Event::StdoutLine(line) => (self.logged_stdout(line@), Action::Redraw),
            Event::StderrLine(line) => (self.logged_stderr(line@), Action::Redraw),
            Event::StdoutClosed => (MultiplexerView { stdout_open: false, ..self }, Action::Wait),
            Event::StderrClosed => (MultiplexerView { stderr_open: false, ..self }, Action::Wait),
            Event::Failed(failure) => (self.in_phase(Phase::Failed(failure)), self.leave()),
        }
    }

    /// What an event does after the child has exited with `code`: lines are
    /// still logged, and the run ends when both streams are at their ends.
    pub open spec fn while_draining(self, code: i32, event: Event) -> (MultiplexerView, Action) {
        match event {
            Event::StdoutLine(line) => (self.logged_stdout(line@), Action::Redraw),
            Event::StderrLine(line) => (self.logged_stderr(line@), Action::Redraw),
            Event::StdoutClosed => if self.stderr_open {
                (MultiplexerView { stdout_open: false, ..self }, Action::Wait)
            } else {
                (
                    MultiplexerView { stdout_open: false, phase: Phase::Exited(code), ..self },
                    self.leave(),
                )
            },
            Event::StderrClosed => if self.stdout_open {
                (MultiplexerView { stderr_open: false, ..self }, Action::Wait)
            } else {
                (
                    MultiplexerView { stderr_open: false, phase: Phase::Exited(code), ..self },
                    self.leave(),
                )
            },
            Event::Failed(failure) => (self.in_phase(Phase::Failed(failure)), self.leave()),
            _ => (self, Action::Wait),
        }
    }

    /// The state after `event` and the action that it calls for. Once a run
    /// is over, no event changes anything.
    pub open spec fn transition(self, event: Event) -> (MultiplexerView, Action) {
        match self.phase {
            Phase::Spawning => self.while_spawning(event),
            Phase::Running => self.while_running(event),
            Phase::Draining(code) => self.while_draining(code, event),
            _ => (self, self.leave()),
        }
    }

    /// The state after all of `events`, the first one first.
    pub open spec fn run(self, events: Seq<Event>) -> MultiplexerView
        decreases events.len(),
    {
        if events.len() == 0 {
            self
        } else {
            self.run(events.drop_last()).transition(events.last()).0
        }
    }
}

/// Whether one of the pending inputs is the cancellation key.
pub fn cancel_requested(keys: &Vec<KeyInput>) -> (cancel: bool)
    ensures
        cancel == cancels(keys@),
{
    let mut i: usize = 0;
    while i < keys.len()
        invariant
            i <= keys.len(),
            forall|j: int| 0 <= j < i ==> keys@[j] != KeyInput::Char(CANCEL_KEY),
        decreases keys.len() - i,
    {
        match keys[i] {
            KeyInput::Char(c) => {
                if c == CANCEL_KEY {
                    return true;
                }
            },
            KeyInput::Other => {},
        }
        i = i + 1;
    }
    false
}

/// The supervisor of one run.
#[derive(Debug)]
pub struct Multiplexer {
    phase: Phase,
    command: CommandLine,
    dashboard: Option<DashboardState>,
    stdout_open: bool,
    stderr_open: bool,
}

impl View for Multiplexer {
    type V = MultiplexerView;

    closed spec fn view(&self) -> MultiplexerView {
        MultiplexerView {
            phase: self.phase,
            command: self.command@,
            dashboard: match self.dashboard {
                Some(dashboard) => Some(dashboard@),
                None => None,
            },
            stdout_open: self.stdout_open,
            stderr_open: self.stderr_open,
        }
    }
}

impl Multiplexer {
    /// The supervisor of a run of `command`, before the launch.
    pub fn new(command: CommandLine) -> (multiplexer: Multiplexer)
        ensures
            multiplexer@ == MultiplexerView::initial(command@),
            multiplexer@.wf(),
    {
        Multiplexer {
            phase: Phase::Spawning,
            command,
            dashboard: None,
            stdout_open: true,
            stderr_open: true,
        }
    }

    /// Where the run stands.
    pub fn phase(&self) -> (phase: Phase)
        ensures
            phase == self@.phase,
    {
        self.phase
    }

    /// The command of this run.
    pub fn command(&self) -> (command: &CommandLine)
        ensures
            command@ == self@.command,
    {
        &self.command
    }

    /// The state to paint frames from; there is none before the launch.
    pub fn dashboard(&self) -> (dashboard: Option<&DashboardState>)
        ensures
            (dashboard is Some) == (self@.dashboard is Some),
            dashboard is Some ==> dashboard->0@ == self@.dashboard->0,
    {
        self.dashboard.as_ref()
    }

    /// Whether the run is over.
    pub fn is_over(&self) -> (over: bool)
        ensures
            over == self@.is_over(),
    {
        match self.phase {
            Phase::Cancelled => true,
            Phase::Exited(_) => true,
            Phase::Failed(_) => true,
            _ => false,
        }
    }

    /// The child's exit code, once it is known.
    pub fn exit_code(&self) -> (code: Option<i32>)
        ensures
            code == match self@.phase {
                Phase::Draining(code) => Some(code),
                Phase::Exited(code) => Some(code),
                _ => None,
            },
    {
        match self.phase {
            Phase::Draining(code) => Some(code),
            Phase::Exited(code) => Some(code),
            _ => None,
        }
    }

    /// The event sources to wait on in this phase.
    pub fn awaited(&self) -> (awaited: Awaited)
        ensures
            awaited == self@.awaited(),
    {
        let running = match self.phase {
            Phase::Running => true,
            _ => false,
        };
        let live = match self.phase {
            Phase::Running => true,
            Phase::Draining(_) => true,
            _ => false,
        };
        Awaited {
            timer: running,
            exit: running,
            stdout: live && self.stdout_open,
            stderr: live && self.stderr_open,
        }
    }

    /// How the run ends from here.
    fn leave(&self) -> (action: Action)
        ensures
            action == self@.leave(),
    {
        if self.dashboard.is_some() {
            Action::Shutdown
        } else {
            Action::Abort
        }
    }

    /// Logs a line of standard output.
    fn log_stdout(&mut self, line: String)
        ensures
            final(self)@ == old(self)@.logged_stdout(line@),
    {
        match &mut self.dashboard {
            Some(dashboard) => {
                dashboard.append_stdout(line);
            },
            None => {},
        }
    }

    /// Logs a line of standard error.
    fn log_stderr(&mut self, line: String)
        ensures
            final(self)@ == old(self)@.logged_stderr(line@),
    {
        match &mut self.dashboard {
            Some(dashboard) => {
                dashboard.append_stderr(line);
            },
            None => {},
        }
    }

    /// Records one reading.
    fn record(&mut self, now_ms: u64, reading: Reading)
        ensures
            final(self)@ == old(self)@.sampled(now_ms, reading),
    {
        match &mut self.dashboard {
            Some(dashboard) => {
                dashboard.record_reading(now_ms, reading);
            },
            None => {},
        }
    }

    /// Handles an event that arrives before the launch.
    fn step_spawning(&mut self, event: Event) -> (action: Action)
        requires
            old(self)@.phase is Spawning,
        ensures
            (final(self)@, action) == old(self)@.while_spawning(event),
    {
        match event {
            Event::Launched { pid, started_at_ms, total_memory, cpu_count } => {
                let session = ProcessSession::new(pid, self.command.snapshot(), started_at_ms);
                self.dashboard = Some(DashboardState::new(session, total_memory, cpu_count));
                self.phase = Phase::Running;
                Action::EnterTerminal
            },
            Event::Failed(failure) => {
                let action = self.leave();
                self.phase = Phase::Failed(failure);
                action
            },
            _ => Action::Wait,
        }
    }

    /// Handles an event that arrives while the child runs.
    fn step_running(&mut self, event: Event) -> (action: Action)
        requires
            old(self)@.phase is Running,
        ensures
            (final(self)@, action) == old(self)@.while_running(event),
    {
        match event {
            Event::Launched { .. } => Action::Wait,
            Event::Tick { keys } => {
                if cancel_requested(&keys) {
                    self.phase = Phase::Cancelled;
                    self.leave()
                } else {
                    Action::Sample
                }
            },
            Event::Sampled { now_ms, reading } => {
                self.record(now_ms, reading);
                Action::Redraw
            },
            Event::ChildExited { code } => {
                if self.stdout_open || self.stderr_open {
                    self.phase = Phase::Draining(code);
                    Action::Wait
                } else {
                    self.phase = Phase::Exited(code);
                    self.leave()
                }
            },
            Event::StdoutLine(line) => {
                self.log_stdout(line);
                Action::Redraw
            },
            Event::StderrLine(line) => {
                self.log_stderr(line);
                Action::Redraw
            },
            Event::StdoutClosed => {
                self.stdout_open = false;
                Action::Wait
            },
            Event::StderrClosed => {
                self.stderr_open = false;
                Action::Wait
            },
            Event::Failed(failure) => {
                self.phase = Phase::Failed(failure);
                self.leave()
            },
        }
    }

    /// Handles an event that arrives after the child has exited with `code`.
    fn step_draining(&mut self, code: i32, event: Event) -> (action: Action)
        requires
            old(self)@.phase == Phase::Draining(code),
        ensures
            (final(self)@, action) == old(self)@.while_draining(code, event),
    {
        match event {
            Event::StdoutLine(line) => {
                self.log_stdout(line);
                Action::Redraw
            },
            Event::StderrLine(line) => {
                self.log_stderr(line);
                Action::Redraw
            },
            Event::StdoutClosed => {
                self.stdout_open = false;
                if self.stderr_open {
                    Action::Wait
                } else {
                    self.phase = Phase::Exited(code);
                    self.leave()
                }
            },
            Event::StderrClosed => {
                self.stderr_open = false;
                if self.stdout_open {
                    Action::Wait
                } else {
                    self.phase = Phase::Exited(code);
                    self.leave()
                }
            },
            Event::Failed(failure) => {
                self.phase = Phase::Failed(failure);
                self.leave()
            },
            _ => Action::Wait,
        }
    }

    /// Takes one event, moves to the next state and says what to do next.
    pub fn step(&mut self, event: Event) -> (action: Action)
        ensures
            (final(self)@, action) == old(self)@.transition(event),
            old(self)@.wf() ==> final(self)@.wf(),
    {
        match self.phase {
            Phase::Spawning => self.step_spawning(event),
            Phase::Running => self.step_running(event),
            Phase::Draining(code) => self.step_draining(code, event),
            _ => self.leave(),
        }
    }
}

} // verus!
