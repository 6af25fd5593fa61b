//! The log service: log lines as structured entries, the bounded history
//! kept for late viewers, and the console form of a line.

use vstd::prelude::*;
use std::collections::VecDeque;
use crate::text::{push_char, str_chars};

verus! {

/// How many entries the history keeps.
pub const LOG_HISTORY_CAPACITY: usize = 2000;

/// One log line broken into fields.
#[derive(Clone, Debug)]
pub struct LogEvent {
    pub timestamp: String,
    pub level: String,
    pub tag: String,
    pub message: String,
}

/// The one-letter name of a log level: `V`, `D`, `I`, `W`, `E`, `F` for
/// levels 1 to 6, `?` otherwise.
pub open spec fn spec_level_letter(level: i32) -> Seq<char> {
    if level == 1 {
        "V"@
    } else if level == 2 {
        "D"@
    } else if level == 3 {
        "I"@
    } else if level == 4 {
        "W"@
    } else if level == 5 {
        "E"@
    } else if level == 6 {
        "F"@
    } else {
        "?"@
    }
}

/// Returns the one-letter name of a log level.
pub fn level_letter(level: i32) -> (r: &'static str)
    ensures
        r@ == spec_level_letter(level),
{
    if level == 1 {
        "V"
    } else if level == 2 {
        "D"
    } else if level == 3 {
        "I"
    } else if level == 4 {
        "W"
    } else if level == 5 {
        "E"
    } else if level == 6 {
        "F"
    } else {
        "?"
    }
}

impl LogEvent {
    /// The entry for a received log record with the formatted time `timestamp`.
    pub fn from_record(timestamp: String, level: i32, tag: String, message: String) -> (r: LogEvent)
        ensures
            r.timestamp == timestamp,
            r.level@ == spec_level_letter(level),
            r.tag == tag,
            r.message == message,
    {
        LogEvent { timestamp, level: String::from_str(level_letter(level)), tag, message }
    }
}

/// The history after recording `e`: `e` is appended, and the oldest entry
/// is dropped when the history would hold more than `cap` entries.
pub open spec fn spec_record(history: Seq<LogEvent>, e: LogEvent, cap: nat) -> Seq<LogEvent> {
    let h = history.push(e);
    if h.len() > cap {
        h.drop_first()
    } else {
        h
    }
}

/// Records `entry` in the history, dropping the oldest entry when the
/// history grows past its capacity.
pub fn record_log(history: &mut VecDeque<LogEvent>, entry: LogEvent)
    ensures
        final(history)@ == spec_record(old(history)@, entry, LOG_HISTORY_CAPACITY as nat),
{
    broadcast use vstd::std_specs::vecdeque::axiom_spec_len;
    history.push_back(entry);
    if history.len() > LOG_HISTORY_CAPACITY {
        let _ = history.pop_front();
        assert(history@ =~= old(history)@.push(entry).drop_first());
    }
}

/// A history never grows past its capacity, and always ends with the
/// newest entry.
pub proof fn lemma_record_bounded(history: Seq<LogEvent>, e: LogEvent, cap: nat)
    requires
        history.len() <= cap,
        cap > 0,
    ensures
        spec_record(history, e, cap).len() <= cap,
        spec_record(history, e, cap).last() == e,
        history.len() < cap ==> spec_record(history, e, cap) == history.push(e),
{
}

/// `s` padded with spaces on the right to at least `width` characters (as
/// `{:<width}` formats it).
pub open spec fn pad_right(s: Seq<char>, width: nat) -> Seq<char> {
    if s.len() >= width {
        s
    } else {
        s + Seq::new((width - s.len()) as nat, |i: int| ' ')
    }
}

/// Appends `s` padded with spaces to `width` characters.
pub fn push_padded(out: &mut String, s: &str, width: usize)
    ensures
        final(out)@ == old(out)@ + pad_right(s@, width as nat),
{
    let cs = str_chars(s);
    let n = cs.len();
    out.append(s);
    if n < width {
        let ghost base = out@;
        let mut k: usize = n;
        while k < width
            invariant
                n <= k <= width,
                out@ == base + Seq::new((k - n) as nat, |i: int| ' '),
            decreases width - k,
        {
            push_char(out, ' ');
            assert(out@ =~= base + Seq::new((k + 1 - n) as nat, |i: int| ' '));
            k = k + 1;
        }
        assert(out@ =~= old(out)@ + pad_right(s@, width as nat));
    }
}

/// The console form of an entry: time, level, tag and message in columns
/// of 24, 2 and 30 characters, separated by ` │ `.
pub open spec fn spec_console_line(e: LogEvent) -> Seq<char> {
    pad_right(e.timestamp@, 24) + " │ "@ + pad_right(e.level@, 2) + " │ "@ + pad_right(e.tag@, 30) + " │ "@
        + e.message@
}

/// Returns the console form of an entry.
pub fn console_line(e: &LogEvent) -> (r: String)
    ensures
        r@ == spec_console_line(*e),
{
    let mut out = String::new();
    push_padded(&mut out, e.timestamp.as_str(), 24);
    out.append(" │ ");
    push_padded(&mut out, e.level.as_str(), 2);
    out.append(" │ ");
    push_padded(&mut out, e.tag.as_str(), 30);
    out.append(" │ ");
    out.append(e.message.as_str());
    out
}

} // verus!
