//! The greeting message, stamped with the local date and time.

use crate::timestamp::{timestamp_text, LocalDateTime};
use vstd::prelude::*;

verus! {

/// The greeting every message carries.
pub open spec fn greeting_text() -> Seq<char> {
    "Hello from rust-script!"@
}

/// A line of text and the local date and time it was written at.
#[derive(Clone, Debug)]
pub struct Message {
    pub text: String,
    pub timestamp: String,
}

impl Message {
    /// The greeting, stamped with `at`.
    pub fn stamped(at: &LocalDateTime) -> (m: Message)
        requires
            at.wf(),
        ensures
            m.text@ == greeting_text(),
            m.timestamp@ == timestamp_text(*at),
    {
        Message { text: String::from_str("Hello from rust-script!"), timestamp: at.to_timestamp_string() }
    }
}

} // verus!
