//! A supervisor for one child command and the state of its live dashboard.
//!
//! The crate holds the decisions and the data of a terminal dashboard that
//! watches a child process: the time series of telemetry samples, the two
//! output logs, the texts and axis bounds of the panels, and the event
//! multiplexer that turns timer ticks, output lines, key presses and the
//! child's exit into the next state and the next thing to do. Spawning the
//! child, reading its streams, asking the system for figures and painting the
//! terminal are left to the program that drives the multiplexer.

pub mod command;
pub mod dashboard;
pub mod labels;
pub mod laws;
pub mod multiplexer;
pub mod output;
pub mod sizes;
pub mod telemetry;
pub mod text;
