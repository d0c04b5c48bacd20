use procdash::telemetry::{
    bytes_per_second, disk_rate, Reading, TelemetrySample, TelemetryStore, INTERVAL_MS,
};

fn sample(elapsed_ms: u64, read: u64, write: u64) -> TelemetrySample {
    TelemetrySample {
        elapsed_ms,
        cpu_hundredths: 0,
        memory_bytes: 0,
        disk_read_total: read,
        disk_write_total: write,
    }
}

#[test]
fn interval_is_three_hundred_milliseconds() {
    assert_eq!(INTERVAL_MS, 300);
}

#[test]
fn rate_of_three_thousand_bytes_in_one_interval() {
    assert_eq!(disk_rate(1000, 4000, 300), 10000);
}

#[test]
fn rate_rounds_down() {
    assert_eq!(disk_rate(0, 1, 300), 3);
    assert_eq!(disk_rate(0, 2, 300), 6);
    assert_eq!(bytes_per_second(299, 1000), 299);
    assert_eq!(bytes_per_second(7, 3), 2333);
}

#[test]
fn rate_of_an_unchanged_total_is_zero() {
    assert_eq!(disk_rate(4000, 4000, 300), 0);
}

#[test]
fn rate_of_a_shrunken_total_is_zero() {
    assert_eq!(disk_rate(4000, 1000, 300), 0);
}

#[test]
fn rate_keeps_the_low_sixty_four_bits() {
    let exact: u128 = u64::MAX as u128 * 1000 / 300;
    assert!(exact > u64::MAX as u128);
    assert_eq!(disk_rate(0, u64::MAX, 300), (exact % (1u128 << 64)) as u64);
    assert_eq!(bytes_per_second(u64::MAX, 1000), u64::MAX);
    assert_eq!(bytes_per_second(u64::MAX, u64::MAX), 1000);
}

#[test]
fn sample_counts_time_from_the_start() {
    let reading = Reading {
        cpu_hundredths: 1234,
        memory_bytes: 4096,
        disk_read_total: 10,
        disk_write_total: 20,
    };
    let taken = TelemetrySample::taken_at(1_000, 1_300, reading);
    assert_eq!(
        taken,
        TelemetrySample {
            elapsed_ms: 300,
            cpu_hundredths: 1234,
            memory_bytes: 4096,
            disk_read_total: 10,
            disk_write_total: 20,
        }
    );
}

#[test]
fn sample_before_the_start_has_no_elapsed_time() {
    let reading =
        Reading { cpu_hundredths: 0, memory_bytes: 0, disk_read_total: 0, disk_write_total: 0 };
    assert_eq!(TelemetrySample::taken_at(1_000, 999, reading).elapsed_ms, 0);
    assert_eq!(TelemetrySample::taken_at(1_000, 1_000, reading).elapsed_ms, 0);
}

#[test]
fn new_store_is_empty() {
    let store = TelemetryStore::new();
    assert_eq!(store.len(), 0);
    assert!(store.is_empty());
    assert_eq!(store.get(0), None);
    assert_eq!(store.latest(), None);
    assert_eq!(store.latest_pair(), None);
    assert_eq!(store.to_vec(), vec![]);
}

#[test]
fn store_keeps_samples_in_order() {
    let mut store = TelemetryStore::new();
    store.append(sample(0, 1, 2));
    assert_eq!(store.len(), 1);
    assert!(!store.is_empty());
    assert_eq!(store.latest(), Some(sample(0, 1, 2)));
    assert_eq!(store.latest_pair(), None);
    store.append(sample(300, 3, 4));
    store.append(sample(600, 5, 6));
    assert_eq!(store.len(), 3);
    assert_eq!(store.get(0), Some(sample(0, 1, 2)));
    assert_eq!(store.get(1), Some(sample(300, 3, 4)));
    assert_eq!(store.get(2), Some(sample(600, 5, 6)));
    assert_eq!(store.get(3), None);
    assert_eq!(store.latest(), Some(sample(600, 5, 6)));
    assert_eq!(store.latest_pair(), Some((sample(300, 3, 4), sample(600, 5, 6))));
    assert_eq!(store.to_vec(), vec![sample(0, 1, 2), sample(300, 3, 4), sample(600, 5, 6)]);
}

#[test]
fn store_does_not_reorder_what_it_is_given() {
    let mut store = TelemetryStore::new();
    store.append(sample(600, 0, 0));
    store.append(sample(300, 0, 0));
    assert_eq!(store.to_vec(), vec![sample(600, 0, 0), sample(300, 0, 0)]);
}

#[test]
fn store_snapshot_is_untouched_by_later_appends() {
    let mut store = TelemetryStore::new();
    store.append(sample(0, 1, 2));
    let copy = store.snapshot();
    store.append(sample(300, 3, 4));
    assert_eq!(copy.len(), 1);
    assert_eq!(copy.get(0), Some(sample(0, 1, 2)));
    assert_eq!(store.len(), 2);
}
