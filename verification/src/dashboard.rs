//! The state that one frame of the dashboard is painted from.

use crate::command::{CommandLine, CommandLineView};
use crate::labels::{
    cpu_axis_labels, cpu_usage, cpu_usage_label, memory_axis_labels, memory_usage,
    memory_usage_label, percent, seconds, storage_rate, storage_rate_label, storage_total,
    storage_total_label, time_axis_labels, AxisLabels,
};
use crate::output::{joined, OutputLog};
use crate::sizes::size_text;
use crate::telemetry::{
    disk_rate, rate_between, sample_at, Reading, TelemetrySample, TelemetryStore, INTERVAL_MS,
};
use vstd::prelude::*;

verus! {

/// What a session holds.
pub struct SessionView {
    pub pid: u32,
    pub command: CommandLineView,
    pub started_at_ms: u64,
}

/// The launched command: fixed from the moment the child was spawned.
#[derive(Debug)]
pub struct ProcessSession {
    pid: u32,
    command: CommandLine,
    started_at_ms: u64,
}

impl View for ProcessSession {
    type V = SessionView;

    closed spec fn view(&self) -> SessionView {
        SessionView { pid: self.pid, command: self.command@, started_at_ms: self.started_at_ms }
    }
}

impl ProcessSession {
    /// The session of the child `pid`, spawned from `command` when the clock
    /// read `started_at_ms`.
    pub fn new(pid: u32, command: CommandLine, started_at_ms: u64) -> (session: ProcessSession)
        ensures
            session@ == (SessionView { pid, command: command@, started_at_ms }),
    {
        ProcessSession { pid, command, started_at_ms }
    }

    /// The child's process identifier.
    pub fn pid(&self) -> (pid: u32)
        ensures
            pid == self@.pid,
    {
        self.pid
    }

    /// The command that was launched.
    pub fn command(&self) -> (command: &CommandLine)
        ensures
            command@ == self@.command,
    {
        &self.command
    }

    /// The clock's value, in milliseconds, when the child was spawned.
    pub fn started_at_ms(&self) -> (started_at_ms: u64)
        ensures
            started_at_ms == self@.started_at_ms,
    {
        self.started_at_ms
    }

    /// A copy of the session.
    pub fn snapshot(&self) -> (copy: ProcessSession)
        ensures
            copy@ == self@,
    {
        ProcessSession {
            pid: self.pid,
            command: self.command.snapshot(),
            started_at_ms: self.started_at_ms,
        }
    }
}

/// What a dashboard state holds.
pub struct DashboardView {
    pub session: SessionView,
    pub stdout: Seq<Seq<char>>,
    pub stderr: Seq<Seq<char>>,
    pub samples: Seq<TelemetrySample>,
    pub total_memory: u64,
    pub cpu_count: u32,
}

impl DashboardView {
    /// The state of a session in which nothing has happened yet.
    pub open spec fn fresh(session: SessionView, total_memory: u64, cpu_count: u32) -> DashboardView {
        DashboardView {
            session,
            stdout: Seq::empty(),
            stderr: Seq::empty(),
            samples: Seq::empty(),
            total_memory,
            cpu_count,
        }
    }

    /// The state after one more sample.
    pub open spec fn with_sample(self, sample: TelemetrySample) -> DashboardView {
        DashboardView { samples: self.samples.push(sample), ..self }
    }

    /// The state after a reading taken when the clock read `now_ms`.
    pub open spec fn with_reading(self, now_ms: u64, reading: Reading) -> DashboardView {
        self.with_sample(sample_at(self.session.started_at_ms, now_ms, reading))
    }

    /// The state after one more line on standard output.
    pub open spec fn with_stdout(self, line: Seq<char>) -> DashboardView {
        DashboardView { stdout: self.stdout.push(line), ..self }
    }

    /// The state after one more line on standard error.
    pub open spec fn with_stderr(self, line: Seq<char>) -> DashboardView {
        DashboardView { stderr: self.stderr.push(line), ..self }
    }

    /// The figures that the panels show: those of the most recent sample, and
    /// zeros before the first one.
    pub open spec fn current(self) -> TelemetrySample {
        if self.samples.len() > 0 {
            self.samples.last()
        } else {
            TelemetrySample {
                elapsed_ms: 0,
                cpu_hundredths: 0,
                memory_bytes: 0,
                disk_read_total: 0,
                disk_write_total: 0,
            }
        }
    }

    /// The read rate that the panels show, in bytes per second: that between
    /// the two most recent samples, in 64 bits, and zero before the second
    /// sample.
    pub open spec fn read_rate(self) -> u64 {
        if self.samples.len() >= 2 {
            (rate_between(
                self.samples[self.samples.len() - 2].disk_read_total,
                self.samples[self.samples.len() - 1].disk_read_total,
                INTERVAL_MS,
            ) % 0x1_0000_0000_0000_0000) as u64
        } else {
            0
        }
    }

    /// The write rate that the panels show, in bytes per second: that
    /// between the two most recent samples, in 64 bits, and zero before the
    /// second sample.
    pub open spec fn write_rate(self) -> u64 {
        if self.samples.len() >= 2 {
            (rate_between(
                self.samples[self.samples.len() - 2].disk_write_total,
                self.samples[self.samples.len() - 1].disk_write_total,
                INTERVAL_MS,
            ) % 0x1_0000_0000_0000_0000) as u64
        } else {
            0
        }
    }

    /// Where the time axis of the charts ends, in milliseconds.
    pub open spec fn time_axis_max(self) -> u64 {
        self.current().elapsed_ms
    }

    /// Where the CPU axis ends, in percent: every logical CPU fully used.
    pub open spec fn cpu_axis_max(self) -> u64 {
        (100 * self.cpu_count) as u64
    }

    /// Where the memory axis ends, in bytes: all memory of the machine.
    pub open spec fn memory_axis_max(self) -> u64 {
        self.total_memory
    }
}

/// The session, both output logs, the telemetry samples, and the two facts
/// about the machine that bound the charts.
#[derive(Debug)]
pub struct DashboardState {
    session: ProcessSession,
    stdout: OutputLog,
    stderr: OutputLog,
    telemetry: TelemetryStore,
    total_memory: u64,
    cpu_count: u32,
}

impl View for DashboardState {
    type V = DashboardView;

    closed spec fn view(&self) -> DashboardView {
        DashboardView {
            session: self.session@,
            stdout: self.stdout@,
            stderr: self.stderr@,
            samples: self.telemetry@,
            total_memory: self.total_memory,
            cpu_count: self.cpu_count,
        }
    }
}

impl DashboardState {
    /// The state at the start of a session, on a machine with `total_memory`
    /// bytes of memory and `cpu_count` logical CPUs.
    pub fn new(session: ProcessSession, total_memory: u64, cpu_count: u32) -> (state:
        DashboardState)
        ensures
            state@ == DashboardView::fresh(session@, total_memory, cpu_count),
    {
        DashboardState {
            session,
            stdout: OutputLog::new(),
            stderr: OutputLog::new(),
            telemetry: TelemetryStore::new(),
            total_memory,
            cpu_count,
        }
    }

    /// Adds a sample behind all earlier ones.
    pub fn append_sample(&mut self, sample: TelemetrySample)
        ensures
            final(self)@ == old(self)@.with_sample(sample),
    {
        self.telemetry.append(sample);
    }

    /// Adds the sample of a reading taken when the clock read `now_ms`: its
    /// elapsed time is counted from the session's start.
    pub fn record_reading(&mut self, now_ms: u64, reading: Reading)
        ensures
            final(self)@ == old(self)@.with_reading(now_ms, reading),
    {
        let sample = TelemetrySample::taken_at(self.session.started_at_ms(), now_ms, reading);
        self.telemetry.append(sample);
    }

    /// Adds a line to the log of standard output.
    pub fn append_stdout(&mut self, line: String)
        ensures
            final(self)@ == old(self)@.with_stdout(line@),
    {
        self.stdout.append(line);
    }

    /// Adds a line to the log of standard error.
    pub fn append_stderr(&mut self, line: String)
        ensures
            final(self)@ == old(self)@.with_stderr(line@),
    {
        self.stderr.append(line);
    }

    /// A copy of the whole state, which later appends do not touch.
    pub fn snapshot(&self) -> (copy: DashboardState)
        ensures
            copy@ == self@,
    {
        DashboardState {
            session: self.session.snapshot(),
            stdout: self.stdout.snapshot(),
            stderr: self.stderr.snapshot(),
            telemetry: self.telemetry.snapshot(),
            total_memory: self.total_memory,
            cpu_count: self.cpu_count,
        }
    }

    /// The session that the dashboard shows.
    pub fn session(&self) -> (session: &ProcessSession)
        ensures
            session@ == self@.session,
    {
        &self.session
    }

    /// The log of standard output.
    pub fn stdout(&self) -> (log: &OutputLog)
        ensures
            log@ == self@.stdout,
    {
        &self.stdout
    }

    /// The log of standard error.
    pub fn stderr(&self) -> (log: &OutputLog)
        ensures
            log@ == self@.stderr,
    {
        &self.stderr
    }

    /// The telemetry samples.
    pub fn telemetry(&self) -> (store: &TelemetryStore)
        ensures
            store@ == self@.samples,
    {
        &self.telemetry
    }

    /// The machine's memory in bytes.
    pub fn total_memory(&self) -> (bytes: u64)
        ensures
            bytes == self@.total_memory,
    {
        self.total_memory
    }

    /// The machine's number of logical CPUs.
    pub fn cpu_count(&self) -> (count: u32)
        ensures
            count == self@.cpu_count,
    {
        self.cpu_count
    }

    /// The figures of the most recent sample, and zeros before the first one.
    pub fn current(&self) -> (sample: TelemetrySample)
        ensures
            sample == self@.current(),
    {
        match self.telemetry.latest() {
            Some(sample) => sample,
            None => TelemetrySample {
                elapsed_ms: 0,
                cpu_hundredths: 0,
                memory_bytes: 0,
                disk_read_total: 0,
                disk_write_total: 0,
            },
        }
    }

    /// The current read rate in bytes per second.
    pub fn read_rate(&self) -> (rate: u64)
        ensures
            rate == self@.read_rate(),
    {
        match self.telemetry.latest_pair() {
            Some((earlier, later)) => disk_rate(
                earlier.disk_read_total,
                later.disk_read_total,
                INTERVAL_MS,
            ),
            None => 0,
        }
    }

    /// The current write rate in bytes per second.
    pub fn write_rate(&self) -> (rate: u64)
        ensures
            rate == self@.write_rate(),
    {
        match self.telemetry.latest_pair() {
            Some((earlier, later)) => disk_rate(
                earlier.disk_write_total,
                later.disk_write_total,
                INTERVAL_MS,
            ),
            None => 0,
        }
    }

    /// Where the time axis of the charts ends, in milliseconds: at the most
    /// recent sample.
    pub fn time_axis_max(&self) -> (ms: u64)
        ensures
            ms == self@.time_axis_max(),
    {
        self.current().elapsed_ms
    }

    /// Where the CPU axis ends, in percent.
    pub fn cpu_axis_max(&self) -> (percent: u64)
        ensures
            percent == self@.cpu_axis_max(),
    {
        100 * (self.cpu_count as u64)
    }

    /// Where the memory axis ends, in bytes.
    pub fn memory_axis_max(&self) -> (bytes: u64)
        ensures
            bytes == self@.memory_axis_max(),
    {
        self.total_memory
    }

    /// The text of the CPU panel.
    pub fn cpu_label(&self) -> (text: String)
        ensures
            text@ == cpu_usage(self@.current().cpu_hundredths),
    {
        cpu_usage_label(self.current().cpu_hundredths)
    }

    /// The text of the memory panel.
    pub fn memory_label(&self) -> (text: String)
        ensures
            text@ == memory_usage(size_text(self@.current().memory_bytes)),
    {
        memory_usage_label(self.current().memory_bytes)
    }

    /// The text of the panel with all bytes read so far.
    pub fn read_total_label(&self) -> (text: String)
        ensures
            text@ == storage_total("read"@, size_text(self@.current().disk_read_total)),
    {
        storage_total_label("read", self.current().disk_read_total)
    }

    /// The text of the panel with the current read rate.
    pub fn read_rate_label(&self) -> (text: String)
        ensures
            text@ == storage_rate("read"@, size_text(self@.read_rate())),
    {
        storage_rate_label("read", self.read_rate())
    }

    /// The text of the panel with all bytes written so far.
    pub fn written_total_label(&self) -> (text: String)
        ensures
            text@ == storage_total("written"@, size_text(self@.current().disk_write_total)),
    {
        storage_total_label("written", self.current().disk_write_total)
    }

    /// The text of the panel with the current write rate.
    pub fn written_rate_label(&self) -> (text: String)
        ensures
            text@ == storage_rate("written"@, size_text(self@.write_rate())),
    {
        storage_rate_label("written", self.write_rate())
    }

    /// The texts along the time axis of both charts.
    pub fn time_labels(&self) -> (labels: AxisLabels)
        ensures
            labels.low@ == "0 s"@,
            labels.mid@ == seconds(self@.time_axis_max() / 2),
            labels.high@ == seconds(self@.time_axis_max()),
    {
        time_axis_labels(self.time_axis_max())
    }

    /// The texts along the CPU chart's value axis.
    pub fn cpu_labels(&self) -> (labels: AxisLabels)
        ensures
            labels.low@ == percent(0),
            labels.mid@ == percent((50 * self@.cpu_count) as u64),
            labels.high@ == percent(self@.cpu_axis_max()),
    {
        cpu_axis_labels(self.cpu_count)
    }

    /// The texts along the memory chart's value axis.
    pub fn memory_labels(&self) -> (labels: AxisLabels)
        ensures
            labels.low@ == size_text(0),
            labels.mid@ == size_text(self@.memory_axis_max() / 2),
            labels.high@ == size_text(self@.memory_axis_max()),
    {
        memory_axis_labels(self.total_memory)
    }

    /// The text of the standard output pane.
    pub fn stdout_text(&self) -> (text: String)
        ensures
            text@ == joined(self@.stdout),
    {
        self.stdout.text()
    }

    /// The text of the standard error pane.
    pub fn stderr_text(&self) -> (text: String)
        ensures
            text@ == joined(self@.stderr),
    {
        self.stderr.text()
    }
}

} // verus!
