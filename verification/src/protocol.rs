//! The line-oriented control protocol.
//!
//! Each input line is one command token.  `time` asks for the elapsed
//! recording time: the reply is the elapsed milliseconds in decimal while
//! recording, and the literal `null` otherwise.  `stop` ends the read loop
//! and triggers the session's stop transition.  Any other line, the empty
//! one included, is ignored without a reply.  The caller reads the lines
//! and writes the replies; every decision is made here.

use vstd::prelude::*;
use crate::text::{spec_decimal, decimal_string};

verus! {

/// A recognized command token.
#[derive(Clone, Copy, Debug, PartialEq, Eq, Structural)]
pub enum Command {
    /// `time`: report elapsed recording time.
    Time,
    /// `stop`: end recording and leave the read loop.
    Stop,
}

/// What a line means: a command, or nothing at all.
pub open spec fn spec_parse(s: Seq<char>) -> Option<Command> {
    if s == "time"@ {
        Some(Command::Time)
    } else if s == "stop"@ {
        Some(Command::Stop)
    } else {
        None
    }
}

/// Parse one input line.  Unrecognized lines are not errors; they parse to
/// nothing and are ignored.
pub fn parse_line(line: &str) -> (c: Option<Command>)
    ensures
        c == spec_parse(line@),
{
    let s = String::from_str(line);
    let time = String::from_str("time");
    let stop = String::from_str("stop");
    if s == time {
        Some(Command::Time)
    } else if s == stop {
        Some(Command::Stop)
    } else {
        None
    }
}

/// The reply to `time`: the elapsed milliseconds in decimal while
/// recording, the literal `null` otherwise.
pub open spec fn spec_time_reply(recording: bool, elapsed_ms: u64) -> Seq<char> {
    if recording {
        spec_decimal(elapsed_ms as int)
    } else {
        "null"@
    }
}

/// Build the reply to a `time` request.
pub fn time_reply(recording: bool, elapsed_ms: u64) -> (r: String)
    ensures
        r@ == spec_time_reply(recording, elapsed_ms),
{
    if recording {
        decimal_string(elapsed_ms)
    } else {
        String::from_str("null")
    }
}

/// One step of the protocol loop, for one input line: the reply to write,
/// if any, and whether the loop ends.  `time` replies and continues;
/// `stop` stays silent, ends the loop, and the caller then advances the
/// session; anything else is ignored.
pub fn handle_line(line: &str, recording: bool, elapsed_ms: u64) -> (r: (Option<String>, bool))
    ensures
        spec_parse(line@) == Some(Command::Time) ==> {
            &&& r.1 == false
            &&& r.0 matches Some(reply) && reply@ == spec_time_reply(recording, elapsed_ms)
        },
        spec_parse(line@) == Some(Command::Stop) ==> r.0 is None && r.1 == true,
        spec_parse(line@) is None ==> r.0 is None && r.1 == false,
{
    match parse_line(line) {
        Some(Command::Time) => (Some(time_reply(recording, elapsed_ms)), false),
        Some(Command::Stop) => (None, true),
        None => (None, false),
    }
}

} // verus!
