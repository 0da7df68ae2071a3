//! Printing: text for the console, and the lines of the kernel's log with
//! their time stamps.

use crate::console::Write;
use crate::time::Duration;
use vstd::prelude::*;

verus! {

/// The text of a line of the log: in brackets the letter of the level and
/// the time, in seconds on at least three columns and microseconds on six;
/// then the message.
pub uninterp spec fn log_line_text(level: char, secs: u64, micros: u32, message: Seq<char>) -> Seq<
    char,
>;

/// `format!` with the pattern of a line of the log.
#[verifier::external_body]
fn format_log_line(level: char, secs: u64, micros: u32, message: &str) -> (r: String)
    ensures
        r@ == log_line_text(level, secs, micros, message@),
{
    format!("[{} {:>3}.{:06}] {}", level, secs, micros, message)
}

/// Writes text to a console.
pub fn _print<C: Write>(console: &C, text: &str) -> Result<(), &'static str> {
    console.write_str(text)
}

/// A line of information, at the given uptime.
pub fn info(uptime: &Duration, message: &str) -> (r: String)
    ensures
        r@ == log_line_text('I', uptime.secs(), (uptime.nanos() / 1000) as u32, message@),
{
    format_log_line('I', uptime.as_secs(), uptime.subsec_micros(), message)
}

/// A line of warning, at the given uptime.
pub fn warn(uptime: &Duration, message: &str) -> (r: String)
    ensures
        r@ == log_line_text('W', uptime.secs(), (uptime.nanos() / 1000) as u32, message@),
{
    format_log_line('W', uptime.as_secs(), uptime.subsec_micros(), message)
}

} // verus!
