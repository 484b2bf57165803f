//! Print-job execution for point-of-sale receipt printers.
//!
//! The library decides; a driver talks to the operating system's print
//! spooler. A `PrintJob` is a state machine: each call of `PrintJob::step`
//! takes what the spooler reported for the previous action and names the next
//! action, so that every session that was opened is released exactly once and
//! the data-type candidates are tried in their order.
pub mod encoding;
pub mod reason;
pub mod resolver;
pub mod text;
pub mod job;
pub mod laws;
