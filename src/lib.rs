//! Building blocks of two small scripts: one that stamps a greeting with the
//! local date and time, and one that reports the outcome of two concurrent
//! web requests. Where each request goes, how each reply body is read,
//! and the text each script produces are stated and proved here; the calendar
//! text comes from chrono, the JSON reading from serde_json.

pub mod message;
pub mod reply;
pub mod report;
pub mod timestamp;
