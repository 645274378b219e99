//! The human-readable strings the supervisor produces.
//!
//! A successful launch is acknowledged with a message naming the child's
//! process identifier; each line drained from the child's output is
//! prefixed with its stream's tag before it is handed to the log sink; a
//! failed read is reported with the stream it happened on. Every message
//! is pinned down, character for character, by a spec function.

use vstd::prelude::*;

use crate::drain::StreamTag;
use crate::numerals::lemma_decimal_nonempty;
use crate::numerals::spec_decimal;
use crate::numerals::u64_to_string;

verus! {

/// How a process identifier is shown: its decimal numeral, or a
/// placeholder when the platform could not supply one.
pub open spec fn spec_pid_display(pid: Option<u64>) -> Seq<char> {
    match pid {
        Some(n) => spec_decimal(n as nat),
        None => "N/A"@,
    }
}

/// The acknowledgment a successful launch returns to its caller.
pub open spec fn spec_launch_message(pid: Option<u64>) -> Seq<char> {
    "Python backend started with PID: "@ + spec_pid_display(pid)
}

/// A process identifier is always shown as a non-empty string, whether or
/// not the platform supplied one.
pub proof fn lemma_pid_display_nonempty(pid: Option<u64>)
    ensures
        spec_pid_display(pid).len() >= 1,
{
    match pid {
        Some(n) => lemma_decimal_nonempty(n as nat),
        None => {
            reveal_strlit("N/A");
        },
    }
}

/// Shows a process identifier, or the placeholder when none is known.
pub fn pid_display(pid: Option<u64>) -> (r: String)
    ensures
        r@ == spec_pid_display(pid),
{
    match pid {
        Some(n) => u64_to_string(n),
        None => "N/A".to_owned(),
    }
}

/// Builds the acknowledgment for a successful launch. The result is never
/// empty: it names the process identifier or its placeholder.
pub fn launch_message(pid: Option<u64>) -> (r: String)
    ensures
        r@ == spec_launch_message(pid),
        r@.len() > 0,
{
    proof {
        reveal_strlit("Python backend started with PID: ");
    }
    let mut r = "Python backend started with PID: ".to_owned();
    let shown = pid_display(pid);
    r.append(shown.as_str());
    r
}

/// The tagged form in which one drained line reaches the log sink.
pub open spec fn spec_log_line(tag: StreamTag, line: Seq<char>) -> Seq<char> {
    match tag {
        StreamTag::Stdout => "[Python Backend stdout]: "@ + line,
        StreamTag::Stderr => "[Python Backend stderr]: "@ + line,
    }
}

/// Tags one drained line with the stream it came from.
pub fn log_line(tag: StreamTag, line: &str) -> (r: String)
    ensures
        r@ == spec_log_line(tag, line@),
{
    let mut r = match tag {
        StreamTag::Stdout => "[Python Backend stdout]: ".to_owned(),
        StreamTag::Stderr => "[Python Backend stderr]: ".to_owned(),
    };
    r.append(line);
    r
}

/// The note logged when a read on one of the streams fails.
pub open spec fn spec_read_error_message(tag: StreamTag, detail: Seq<char>) -> Seq<char> {
    match tag {
        StreamTag::Stdout => "Error reading stdout: "@ + detail,
        StreamTag::Stderr => "Error reading stderr: "@ + detail,
    }
}

/// Describes a failed read on the given stream.
pub fn read_error_message(tag: StreamTag, detail: &str) -> (r: String)
    ensures
        r@ == spec_read_error_message(tag, detail@),
{
    let mut r = match tag {
        StreamTag::Stdout => "Error reading stdout: ".to_owned(),
        StreamTag::Stderr => "Error reading stderr: ".to_owned(),
    };
    r.append(detail);
    r
}

} // verus!
