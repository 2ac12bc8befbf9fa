//! Operational log lines on the standard error stream:
//! `<unix seconds> <LEVEL> <message>`.
use vstd::prelude::*;

use crate::text::{decimal, push_str, push_unsigned};
use std::io::Write;

verus! {

/// The text of a log line.
pub open spec fn log_text(timestamp: u64, level: Seq<char>, message: Seq<char>) -> Seq<char> {
    decimal(timestamp as nat) + " "@ + level + " "@ + message
}

/// Builds a log line.
pub fn log_line(timestamp: u64, level: &str, message: &str) -> (s: String)
    ensures
        s@ == log_text(timestamp, level@, message@),
{
    let mut s = String::new();
    push_unsigned(&mut s, timestamp);
    push_str(&mut s, " ");
    push_str(&mut s, level);
    push_str(&mut s, " ");
    push_str(&mut s, message);
    s
}

/// Reads the system clock (`SystemTime::now`) as whole seconds since the
/// Unix epoch; a clock set before the epoch reads as zero. The time is not
/// stated.
#[verifier::external_body]
fn unix_seconds() -> u64 {
    match std::time::SystemTime::now().duration_since(std::time::UNIX_EPOCH) {
        Ok(duration) => duration.as_secs(),
        Err(_) => 0,
    }
}

/// Writes a line to the standard error stream (`std::io::stderr`); a
/// failed write is ignored.
#[verifier::external_body]
fn write_error_stream(line: &str) {
    let _ = writeln!(std::io::stderr(), "{}", line);
}

/// Logs an informational message.
pub fn info(message: &str) {
    let line = log_line(unix_seconds(), "INFO", message);
    write_error_stream(line.as_str());
}

/// Logs an error.
pub fn error(message: &str) {
    let line = log_line(unix_seconds(), "ERROR", message);
    write_error_stream(line.as_str());
}

} // verus!
