use procdash::command::CommandLine;
use procdash::dashboard::{DashboardState, ProcessSession};
use procdash::telemetry::{Reading, TelemetrySample};

fn session(started_at_ms: u64) -> ProcessSession {
    let command =
        CommandLine::from_tokens(vec!["sleep".to_string(), "1".to_string()]).unwrap();
    ProcessSession::new(42, command, started_at_ms)
}

fn reading(cpu_hundredths: u64, memory_bytes: u64, read: u64, write: u64) -> Reading {
    Reading { cpu_hundredths, memory_bytes, disk_read_total: read, disk_write_total: write }
}

#[test]
fn session_keeps_what_it_was_made_of() {
    let session = session(77);
    assert_eq!(session.pid(), 42);
    assert_eq!(session.started_at_ms(), 77);
    assert_eq!(session.command().program(), "sleep");
    assert_eq!(session.command().arg(0), Some("1"));
    let copy = session.snapshot();
    assert_eq!(copy.pid(), 42);
    assert_eq!(copy.started_at_ms(), 77);
    assert_eq!(copy.command().program(), "sleep");
    assert_eq!(copy.command().arg_count(), 1);
}

#[test]
fn fresh_state_shows_zeros() {
    let state = DashboardState::new(session(0), 16_000_000_000, 8);
    assert_eq!(state.session().pid(), 42);
    assert_eq!(state.total_memory(), 16_000_000_000);
    assert_eq!(state.cpu_count(), 8);
    assert_eq!(state.stdout().len(), 0);
    assert_eq!(state.stderr().len(), 0);
    assert_eq!(state.telemetry().len(), 0);
    assert_eq!(
        state.current(),
        TelemetrySample {
            elapsed_ms: 0,
            cpu_hundredths: 0,
            memory_bytes: 0,
            disk_read_total: 0,
            disk_write_total: 0,
        }
    );
    assert_eq!(state.read_rate(), 0);
    assert_eq!(state.write_rate(), 0);
    assert_eq!(state.time_axis_max(), 0);
    assert_eq!(state.cpu_label(), "CPU usage: 0.00%");
    assert_eq!(state.memory_label(), "Memory usage: 0 B");
    assert_eq!(state.read_total_label(), "Storage read: 0 B");
    assert_eq!(state.read_rate_label(), "Storage read /s: 0 B");
    assert_eq!(state.written_total_label(), "Storage written: 0 B");
    assert_eq!(state.written_rate_label(), "Storage written /s: 0 B");
    assert_eq!(state.stdout_text(), "");
    assert_eq!(state.stderr_text(), "");
}

#[test]
fn axes_are_bounded_by_the_machine() {
    let state = DashboardState::new(session(0), 16_000_000_000, 8);
    assert_eq!(state.cpu_axis_max(), 800);
    assert_eq!(state.memory_axis_max(), 16_000_000_000);
    let cpu = state.cpu_labels();
    assert_eq!((cpu.low.as_str(), cpu.mid.as_str(), cpu.high.as_str()), ("0%", "400%", "800%"));
    let memory = state.memory_labels();
    assert_eq!(
        (memory.low.as_str(), memory.mid.as_str(), memory.high.as_str()),
        ("0 B", "8.0 GB", "16.0 GB")
    );
    let most = DashboardState::new(session(0), u64::MAX, u32::MAX);
    assert_eq!(most.cpu_axis_max(), 429_496_729_500);
    assert_eq!(most.memory_axis_max(), u64::MAX);
}

#[test]
fn readings_become_samples_counted_from_the_start() {
    let mut state = DashboardState::new(session(1_000), 1 << 30, 2);
    state.record_reading(1_000, reading(0, 100, 0, 0));
    state.record_reading(1_301, reading(5_000, 200, 1000, 50));
    assert_eq!(state.telemetry().len(), 2);
    assert_eq!(state.telemetry().get(0).unwrap().elapsed_ms, 0);
    assert_eq!(state.telemetry().get(1).unwrap().elapsed_ms, 301);
    assert_eq!(state.current().cpu_hundredths, 5_000);
    assert_eq!(state.time_axis_max(), 301);
    let time = state.time_labels();
    assert_eq!(
        (time.low.as_str(), time.mid.as_str(), time.high.as_str()),
        ("0 s", "0.15 s", "0.30 s")
    );
}

#[test]
fn rates_come_from_the_two_latest_samples() {
    let mut state = DashboardState::new(session(0), 1 << 30, 2);
    state.record_reading(0, reading(0, 0, 500, 7_000));
    assert_eq!(state.read_rate(), 0);
    assert_eq!(state.write_rate(), 0);
    state.record_reading(300, reading(0, 0, 1000, 7_000));
    assert_eq!(state.read_rate(), 1666);
    assert_eq!(state.write_rate(), 0);
    state.record_reading(600, reading(0, 0, 4000, 7_300));
    assert_eq!(state.read_rate(), 10000);
    assert_eq!(state.write_rate(), 1000);
    assert_eq!(state.read_total_label(), "Storage read: 4.0 KB");
    assert_eq!(state.read_rate_label(), "Storage read /s: 10.0 KB");
    assert_eq!(state.written_total_label(), "Storage written: 7.3 KB");
    assert_eq!(state.written_rate_label(), "Storage written /s: 1.0 KB");
}

#[test]
fn panels_show_the_latest_sample() {
    let mut state = DashboardState::new(session(0), 1 << 30, 2);
    state.append_sample(TelemetrySample {
        elapsed_ms: 300,
        cpu_hundredths: 15_075,
        memory_bytes: 2_500_000,
        disk_read_total: 0,
        disk_write_total: 0,
    });
    assert_eq!(state.cpu_label(), "CPU usage: 150.75%");
    assert_eq!(state.memory_label(), "Memory usage: 2.5 MB");
}

#[test]
fn lines_go_to_their_own_log() {
    let mut state = DashboardState::new(session(0), 1 << 30, 2);
    state.append_stdout("out 1".to_string());
    state.append_stderr("err 1".to_string());
    state.append_stdout("out 2".to_string());
    assert_eq!(state.stdout().len(), 2);
    assert_eq!(state.stderr().len(), 1);
    assert_eq!(state.stdout_text(), "out 1\nout 2\n");
    assert_eq!(state.stderr_text(), "err 1\n");
}

#[test]
fn state_snapshot_is_untouched_by_later_appends() {
    let mut state = DashboardState::new(session(5), 1 << 30, 2);
    state.append_stdout("a".to_string());
    state.record_reading(10, reading(1, 2, 3, 4));
    let copy = state.snapshot();
    state.append_stdout("b".to_string());
    state.append_stderr("c".to_string());
    state.record_reading(310, reading(5, 6, 7, 8));
    assert_eq!(copy.stdout_text(), "a\n");
    assert_eq!(copy.stderr_text(), "");
    assert_eq!(copy.telemetry().len(), 1);
    assert_eq!(copy.telemetry().get(0).unwrap().elapsed_ms, 5);
    assert_eq!(copy.session().pid(), 42);
    assert_eq!(copy.total_memory(), 1 << 30);
    assert_eq!(copy.cpu_count(), 2);
    assert_eq!(state.stdout().len(), 2);
    assert_eq!(state.telemetry().len(), 2);
}
