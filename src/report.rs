//! What the fetching script prints: a line for the outcome of each of its
//! two requests, between an opening and a closing line.

use vstd::prelude::*;

verus! {

/// The body of a reply that reports the caller's address.
#[derive(Clone, Debug)]
pub struct IpResponse {
    pub origin: String,
}

/// The body of a reply that carries a freshly drawn UUID.
#[derive(Clone, Debug)]
pub struct UuidResponse {
    pub uuid: String,
}

/// A line of output, and the stream it goes to.
#[derive(Clone, Debug)]
pub enum OutputLine {
    Stdout(String),
    Stderr(String),
}

impl OutputLine {
    /// The text of the line.
    pub open spec fn text_view(&self) -> Seq<char> {
        match self {
            OutputLine::Stdout(t) => t@,
            OutputLine::Stderr(t) => t@,
        }
    }

    /// The text of the line.
    pub fn text(&self) -> (r: &String)
        ensures
            r@ == self.text_view(),
    {
        match self {
            OutputLine::Stdout(t) => t,
            OutputLine::Stderr(t) => t,
        }
    }

    /// Whether the line goes to standard error.
    pub fn is_error(&self) -> (r: bool)
        ensures
            r == (self is Stderr),
    {
        match self {
            OutputLine::Stdout(_) => false,
            OutputLine::Stderr(_) => true,
        }
    }
}

/// `line` goes to standard output and reads `text`.
pub open spec fn prints(line: OutputLine, text: Seq<char>) -> bool {
    line is Stdout && line.text_view() == text
}

/// `line` goes to standard error and reads `text`.
pub open spec fn complains(line: OutputLine, text: Seq<char>) -> bool {
    line is Stderr && line.text_view() == text
}

/// The line owed for the outcome of the address request.
pub open spec fn ip_line_spec(line: OutputLine, result: Result<IpResponse, String>) -> bool {
    match result {
        Ok(ip) => prints(line, "Your IP: "@ + ip.origin@),
        Err(e) => complains(line, "Failed to fetch IP: "@ + e@),
    }
}

/// The line owed for the outcome of the UUID request.
pub open spec fn uuid_line_spec(line: OutputLine, result: Result<UuidResponse, String>) -> bool {
    match result {
        Ok(u) => prints(line, "Random UUID: "@ + u.uuid@),
        Err(e) => complains(line, "Failed to fetch UUID: "@ + e@),
    }
}

/// `prefix` followed by `rest`.
fn joined(prefix: &str, rest: &String) -> (r: String)
    ensures
        r@ == prefix@ + rest@,
{
    let mut s = String::from_str(prefix);
    s.append(rest.as_str());
    s
}

/// The line printed before the requests are sent.
pub fn opening_line() -> (l: OutputLine)
    ensures
        prints(l, "Fetching data asynchronously...\n"@),
{
    OutputLine::Stdout(String::from_str("Fetching data asynchronously...\n"))
}

/// The line printed once both outcomes have been reported.
pub fn closing_line() -> (l: OutputLine)
    ensures
        prints(l, "\nDone!"@),
{
    OutputLine::Stdout(String::from_str("\nDone!"))
}

/// The line for the outcome of the address request: the address on standard
/// output, or the error on standard error. The error is given as its text.
pub fn ip_line(result: &Result<IpResponse, String>) -> (l: OutputLine)
    ensures
        ip_line_spec(l, *result),
{
    match result {
        Ok(ip) => OutputLine::Stdout(joined("Your IP: ", &ip.origin)),
        Err(e) => OutputLine::Stderr(joined("Failed to fetch IP: ", e)),
    }
}

/// The line for the outcome of the UUID request: the UUID on standard output,
/// or the error on standard error. The error is given as its text.
pub fn uuid_line(result: &Result<UuidResponse, String>) -> (l: OutputLine)
    ensures
        uuid_line_spec(l, *result),
{
    match result {
        Ok(u) => OutputLine::Stdout(joined("Random UUID: ", &u.uuid)),
        Err(e) => OutputLine::Stderr(joined("Failed to fetch UUID: ", e)),
    }
}

/// Everything printed once both requests have completed, in order: the
/// address line, the UUID line and the closing line. Each outcome is
/// reported on its own, whatever the other one was.
pub fn outcome_report(
    ip: &Result<IpResponse, String>,
    uuid: &Result<UuidResponse, String>,
) -> (lines: Vec<OutputLine>)
    ensures
        lines@.len() == 3,
        ip_line_spec(lines@[0], *ip),
        uuid_line_spec(lines@[1], *uuid),
        prints(lines@[2], "\nDone!"@),
{
    let mut lines: Vec<OutputLine> = Vec::new();
    lines.push(ip_line(ip));
    lines.push(uuid_line(uuid));
    lines.push(closing_line());
    lines
}

} // verus!
