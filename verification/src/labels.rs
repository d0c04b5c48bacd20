//! The texts of the dashboard's panels and chart axes.

use crate::sizes::{human_size, size_text};
use crate::text::{decimal, hundredths, push_decimal, push_hundredths};
use vstd::prelude::*;
use vstd::string::StringExecFns;

verus! {

/// The three texts along one chart axis.
#[derive(Debug)]
pub struct AxisLabels {
    /// The text at the axis' origin.
    pub low: String,
    /// The text halfway along the axis.
    pub mid: String,
    /// The text at the axis' end.
    pub high: String,
}

/// The CPU panel's text for a usage given in hundredths of a percent.
pub open spec fn cpu_usage(cpu_hundredths: u64) -> Seq<char> {
    "CPU usage: "@ + hundredths(cpu_hundredths as nat) + "%"@
}

/// The memory panel's text around an already formatted size.
pub open spec fn memory_usage(size: Seq<char>) -> Seq<char> {
    "Memory usage: "@ + size
}

/// The text of a running disk total around an already formatted size.
pub open spec fn storage_total(label: Seq<char>, size: Seq<char>) -> Seq<char> {
    "Storage "@ + label + ": "@ + size
}

/// The text of a disk rate around an already formatted size.
pub open spec fn storage_rate(label: Seq<char>, size: Seq<char>) -> Seq<char> {
    "Storage "@ + label + " /s: "@ + size
}

/// Milliseconds rounded to hundredths of a second, halves upwards.
pub open spec fn centiseconds(ms: u64) -> nat {
    ((ms + 5) / 10) as nat
}

/// A time on the chart's axis: seconds with two decimal places.
pub open spec fn seconds(ms: u64) -> Seq<char> {
    hundredths(centiseconds(ms)) + " s"@
}

/// A whole percentage on the chart's axis.
pub open spec fn percent(value: u64) -> Seq<char> {
    decimal(value as nat) + "%"@
}

/// The hundredth of a second that a time is shown as is the nearest one: it
/// is off by at most five milliseconds, and a time halfway between two
/// hundredths is shown as the later one.
pub proof fn law_seconds_are_nearest(ms: u64)
    ensures
        10 * centiseconds(ms) - 5 <= ms < 10 * centiseconds(ms) + 5,
{
}

/// The CPU panel's text, such as `CPU usage: 12.50%`.
pub fn cpu_usage_label(cpu_hundredths: u64) -> (text: String)
    ensures
        text@ == cpu_usage(cpu_hundredths),
{
    let mut text = String::from_str("CPU usage: ");
    push_hundredths(&mut text, cpu_hundredths);
    text.append("%");
    text
}

/// The memory panel's text around the size text `size`.
pub fn memory_usage_text(size: &str) -> (text: String)
    ensures
        text@ == memory_usage(size@),
{
    let mut text = String::from_str("Memory usage: ");
    text.append(size);
    text
}

/// The memory panel's text for `bytes` of resident memory.
pub fn memory_usage_label(bytes: u64) -> (text: String)
    ensures
        text@ == memory_usage(size_text(bytes)),
{
    let size = human_size(bytes);
    memory_usage_text(size.as_str())
}

/// The text of the running total `label` around the size text `size`.
pub fn storage_total_text(label: &str, size: &str) -> (text: String)
    ensures
        text@ == storage_total(label@, size@),
{
    let mut text = String::from_str("Storage ");
    text.append(label);
    text.append(": ");
    text.append(size);
    text
}

/// The text of the running total `label` for `bytes` moved so far.
pub fn storage_total_label(label: &str, bytes: u64) -> (text: String)
    ensures
        text@ == storage_total(label@, size_text(bytes)),
{
    let size = human_size(bytes);
    storage_total_text(label, size.as_str())
}

/// The text of the rate `label` around the size text `size`.
pub fn storage_rate_text(label: &str, size: &str) -> (text: String)
    ensures
        text@ == storage_rate(label@, size@),
{
    let mut text = String::from_str("Storage ");
    text.append(label);
    text.append(" /s: ");
    text.append(size);
    text
}

/// The text of the rate `label` for `rate` bytes per second.
pub fn storage_rate_label(label: &str, rate: u64) -> (text: String)
    ensures
        text@ == storage_rate(label@, size_text(rate)),
{
    let size = human_size(rate);
    storage_rate_text(label, size.as_str())
}

/// The text of a time on the chart's axis, such as `1.25 s`.
pub fn seconds_label(ms: u64) -> (text: String)
    ensures
        text@ == seconds(ms),
{
    let carry: u64 = if ms % 10 >= 5 {
        1
    } else {
        0
    };
    let rounded: u64 = ms / 10 + carry;
    let mut text = String::new();
    push_hundredths(&mut text, rounded);
    text.append(" s");
    text
}

/// The text of a whole percentage, such as `400%`.
pub fn percent_label(value: u64) -> (text: String)
    ensures
        text@ == percent(value),
{
    let mut text = String::new();
    push_decimal(&mut text, value);
    text.append("%");
    text
}

/// The texts along the time axis of a chart that ends at `max_ms`.
pub fn time_axis_labels(max_ms: u64) -> (labels: AxisLabels)
    ensures
        labels.low@ == "0 s"@,
        labels.mid@ == seconds(max_ms / 2),
        labels.high@ == seconds(max_ms),
{
    AxisLabels {
        low: String::from_str("0 s"),
        mid: seconds_label(max_ms / 2),
        high: seconds_label(max_ms),
    }
}

/// The texts along the CPU axis of a machine with `cpu_count` logical CPUs:
/// from nothing to all of them fully used.
pub fn cpu_axis_labels(cpu_count: u32) -> (labels: AxisLabels)
    ensures
        labels.low@ == percent(0),
        labels.mid@ == percent((50 * cpu_count) as u64),
        labels.high@ == percent((100 * cpu_count) as u64),
{
    let count: u64 = cpu_count as u64;
    AxisLabels {
        low: percent_label(0),
        mid: percent_label(50 * count),
        high: percent_label(100 * count),
    }
}

/// The texts along the memory axis of a machine with `total_memory` bytes.
pub fn memory_axis_labels(total_memory: u64) -> (labels: AxisLabels)
    ensures
        labels.low@ == size_text(0),
        labels.mid@ == size_text(total_memory / 2),
        labels.high@ == size_text(total_memory),
{
    AxisLabels {
        low: human_size(0),
        mid: human_size(total_memory / 2),
        high: human_size(total_memory),
    }
}

} // verus!
