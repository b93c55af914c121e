//! The event log that the interface shows: the newest entries, up to a
//! fixed number.

use crate::clock::now_millis;
use vstd::prelude::*;

verus! {

/// The most entries that the log keeps.
pub const MAX_LOG_ENTRIES: usize = 200;

/// How grave a log entry is.
#[derive(Debug, Clone, Copy, PartialEq, Eq, Structural)]
pub enum LogLevel {
    Info,
    Warn,
    Error,
}

/// One entry of the log: when it was made, in milliseconds since the Unix
/// epoch, how grave it is, and what it says.
#[derive(Debug, Clone, PartialEq, Eq)]
pub struct LogEntry {
    pub timestamp: u64,
    pub level: LogLevel,
    pub message: String,
}

/// The unit in which an entry's age is shown.
#[derive(Debug, Clone, Copy, PartialEq, Eq, Structural)]
pub enum AgeBand {
    /// Under a minute: shown in seconds.
    Seconds,
    /// Under an hour: shown in minutes.
    Minutes,
    /// An hour or more: shown in hours.
    Hours,
}

/// The unit in which an age of `elapsed_millis` milliseconds is shown.
pub fn age_band(elapsed_millis: u64) -> (r: AgeBand)
    ensures
        r == if elapsed_millis < 60_000 {
            AgeBand::Seconds
        } else if elapsed_millis < 3_600_000 {
            AgeBand::Minutes
        } else {
            AgeBand::Hours
        },
{
    if elapsed_millis < 60_000 {
        AgeBand::Seconds
    } else if elapsed_millis < 3_600_000 {
        AgeBand::Minutes
    } else {
        AgeBand::Hours
    }
}

impl LogEntry {
    /// The entry made at the time `now`.
    pub fn at(level: LogLevel, message: String, now: u64) -> (r: Self)
        ensures
            r == (LogEntry { timestamp: now, level, message }),
    {
        LogEntry { timestamp: now, level, message }
    }

    /// The entry made now, at the clock's reading.
    pub fn new(level: LogLevel, message: String) -> (r: Self)
        ensures
            r.level == level,
            r.message == message,
    {
        LogEntry::at(level, message, now_millis())
    }

    /// The entry's age at the time `now`, in milliseconds; none where the
    /// entry lies in the future, which is shown as `now`.
    pub fn age_at(&self, now: u64) -> (r: Option<u64>)
        ensures
            r == if now >= self.timestamp {
                Some((now - self.timestamp) as u64)
            } else {
                None
            },
    {
        if now >= self.timestamp {
            Some(now - self.timestamp)
        } else {
            None
        }
    }
}

/// What a log says: the level and the text of each entry, oldest first.
pub open spec fn log_lines(log: Seq<LogEntry>) -> Seq<(LogLevel, Seq<char>)> {
    log.map_values(|e: LogEntry| (e.level, e.message@))
}

/// The newest lines of `lines`, up to the most that the log keeps.
pub open spec fn capped(lines: Seq<(LogLevel, Seq<char>)>) -> Seq<(LogLevel, Seq<char>)> {
    if lines.len() > MAX_LOG_ENTRIES {
        lines.subrange(lines.len() - MAX_LOG_ENTRIES, lines.len() as int)
    } else {
        lines
    }
}

/// What the log says after the line `(level, text)` was added: the line
/// comes last, and the oldest lines go where there are too many.
pub open spec fn with_line(lines: Seq<(LogLevel, Seq<char>)>, level: LogLevel, text: Seq<char>)
    -> Seq<(LogLevel, Seq<char>)> {
    capped(lines.push((level, text)))
}

/// Adds `entry` to the log and drops the oldest entries where there are now
/// too many.
pub fn push_capped(log: &mut Vec<LogEntry>, entry: LogEntry)
    ensures
        log_lines(final(log)@) == with_line(log_lines(old(log)@), entry.level, entry.message@),
        final(log)@.len() <= MAX_LOG_ENTRIES || final(log)@.len() <= old(log)@.len(),
        final(log)@.len() > 0,
        final(log)@.last() == entry,
{
    log.push(entry);
    if log.len() > MAX_LOG_ENTRIES {
        let surplus = log.len() - MAX_LOG_ENTRIES;
        let tail = log.split_off(surplus);
        *log = tail;
    }
}

/// A log that holds no more than it keeps holds that again after any line
/// is added.
pub proof fn lemma_log_stays_capped(lines: Seq<(LogLevel, Seq<char>)>, level: LogLevel, text: Seq<
    char,
>)
    ensures
        lines.len() <= MAX_LOG_ENTRIES ==> with_line(lines, level, text).len() <= MAX_LOG_ENTRIES,
        with_line(lines, level, text).len() > 0,
        with_line(lines, level, text).last() == (level, text),
{
}

} // verus!
