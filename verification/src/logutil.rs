//! The log of one run: what is captured while the run lasts, and how it is
//! written out.
use crate::defmt::{Level, LogRecord};
use crate::numfmt::{dec_text, push_dec};
use crate::text::{chars_of, push_text, string_of};
use vstd::prelude::*;

verus! {

/// One captured log entry.
#[derive(Debug)]
pub struct LogEntry {
    pub message: String,
    pub level: String,
    pub module: Option<String>,
    pub file: Option<String>,
    pub line: Option<u32>,
    /// Milliseconds since the Unix epoch at which the entry was captured.
    pub timestamp_millis: i64,
}

/// The name of a level as entries carry it: in lower case.
pub open spec fn level_text(level: Level) -> Seq<char> {
    match level {
        Level::Error => "error"@,
        Level::Warn => "warn"@,
        Level::Info => "info"@,
        Level::Debug => "debug"@,
        Level::Trace => "trace"@,
    }
}

/// The name of a level.
pub fn level_name(level: Level) -> (name: &'static str)
    ensures
        name@ == level_text(level),
{
    match level {
        Level::Error => "error",
        Level::Warn => "warn",
        Level::Info => "info",
        Level::Debug => "debug",
        Level::Trace => "trace",
    }
}

impl LogEntry {
    /// The entry for a record that was logged at the time given.
    pub fn from_record(record: &LogRecord, module: Option<String>, timestamp_millis: i64) -> (entry:
        LogEntry)
        ensures
            entry.message@ == record.message@,
            entry.level@ == level_text(record.level),
            entry.module == module,
            entry.file == record.file,
            entry.line == record.line,
            entry.timestamp_millis == timestamp_millis,
    {
        LogEntry {
            message: record.message.clone(),
            level: string_of(&chars_of(level_name(record.level))),
            module,
            file: match &record.file {
                Some(f) => Some(f.clone()),
                None => None,
            },
            line: record.line,
            timestamp_millis,
        }
    }
}

/// The line of one entry in the log of a run: level, ` - `, message, and a
/// line feed.
pub open spec fn entry_line(entry: LogEntry) -> Seq<char> {
    entry.level@ + " - "@ + entry.message@ + "\n"@
}

/// The log of a run as text: the lines of its entries in the order in
/// which they were captured.
pub open spec fn log_text(entries: Seq<LogEntry>) -> Seq<char>
    decreases entries.len(),
{
    if entries.len() == 0 {
        Seq::empty()
    } else {
        log_text(entries.drop_last()) + entry_line(entries.last())
    }
}

/// Writes the log of a run as text.
pub fn render_log(entries: &Vec<LogEntry>) -> (text: String)
    ensures
        text@ == log_text(entries@),
{
    let mut out: Vec<char> = Vec::new();
    let mut i: usize = 0;
    while i < entries.len()
        invariant
            i <= entries.len(),
            out@ == log_text(entries@.take(i as int)),
        decreases entries.len() - i,
    {
        assert(entries@.take(i + 1).drop_last() == entries@.take(i as int));
        assert(entries@.take(i + 1).last() == entries@[i as int]);
        let ghost before = out@;
        push_text(&mut out, entries[i].level.as_str());
        push_text(&mut out, " - ");
        push_text(&mut out, entries[i].message.as_str());
        push_text(&mut out, "\n");
        assert(out@ =~= before + entry_line(entries@[i as int]));
        i += 1;
    }
    assert(entries@.take(entries@.len() as int) == entries@);
    string_of(&out)
}

/// The entries that are captured on a thread: none while nothing is
/// captured there.
#[derive(Debug)]
pub struct Capture {
    pub entries: Option<Vec<LogEntry>>,
}

impl Capture {
    /// Nothing is captured.
    pub fn idle() -> (capture: Capture)
        ensures
            capture.entries is None,
    {
        Capture { entries: None }
    }

    /// Starts to capture, with no entries yet.
    pub fn begin(&mut self)
        ensures
            final(self).entries matches Some(e) && e@.len() == 0,
    {
        self.entries = Some(Vec::new());
    }

    /// Takes an entry: it is kept, after those kept before, while entries
    /// are captured, and dropped otherwise.
    pub fn record(&mut self, entry: LogEntry)
        ensures
            match old(self).entries {
                Some(before) => final(self).entries matches Some(after) && after@ == before@.push(
                    entry,
                ),
                None => final(self).entries is None,
            },
    {
        match &mut self.entries {
            Some(entries) => {
                entries.push(entry);
            },
            None => {},
        }
    }

    /// Ends the capture and hands out what was captured, in order.
    pub fn take(&mut self) -> (entries: Vec<LogEntry>)
        requires
            old(self).entries is Some,
        ensures
            final(self).entries is None,
            Some(entries) == old(self).entries,
    {
        let mut taken: Option<Vec<LogEntry>> = None;
        core::mem::swap(&mut self.entries, &mut taken);
        match taken {
            Some(entries) => entries,
            None => Vec::new(),
        }
    }
}

/// Where a record goes: to the console where the console's filter takes it,
/// and to the capture where the capture's filter takes it.
#[derive(Debug, Clone, Copy, PartialEq, Eq, Structural)]
pub struct Routes {
    pub console: bool,
    pub capture: bool,
}

/// Decides where a record goes.
pub fn route(console_takes: bool, capture_takes: bool) -> (routes: Routes)
    ensures
        routes == (Routes { console: console_takes, capture: capture_takes }),
{
    Routes { console: console_takes, capture: capture_takes }
}

/// Whether a record is of interest at all: to the console or to the
/// capture.
pub fn enabled(console_takes: bool, capture_takes: bool) -> (r: bool)
    ensures
        r == (console_takes || capture_takes),
{
    console_takes || capture_takes
}

/// The report of a panic: the thread and the message in quotes, the place
/// where it is known, and the backtrace on a line of its own where there is
/// one.
pub open spec fn panic_text(
    thread: Seq<char>,
    message: Seq<char>,
    place: Option<(Seq<char>, u32)>,
    backtrace: Option<Seq<char>>,
) -> Seq<char> {
    "thread '"@ + thread + "' panicked at '"@ + message + "'"@ + (match place {
        Some((file, line)) => ": "@ + file + ":"@ + dec_text(line as nat),
        None => Seq::empty(),
    }) + (match backtrace {
        Some(b) => "\n"@ + b,
        None => Seq::empty(),
    })
}

/// Writes the report of a panic.
pub fn panic_report(
    thread: &str,
    message: &str,
    place: Option<(&str, u32)>,
    backtrace: Option<&str>,
) -> (report: String)
    ensures
        report@ == panic_text(
            thread@,
            message@,
            match place {
                Some((file, line)) => Some((file@, line)),
                None => None,
            },
            match backtrace {
                Some(b) => Some(b@),
                None => None,
            },
        ),
{
    let mut out: Vec<char> = Vec::new();
    push_text(&mut out, "thread '");
    push_text(&mut out, thread);
    push_text(&mut out, "' panicked at '");
    push_text(&mut out, message);
    push_text(&mut out, "'");
    let ghost head = out@;
    if let Some((file, line)) = place {
        push_text(&mut out, ": ");
        push_text(&mut out, file);
        push_text(&mut out, ":");
        push_dec(&mut out, line as u128);
        assert(out@ =~= head + (": "@ + file@ + ":"@ + dec_text(line as nat)));
    }
    let ghost mid = out@;
    if let Some(b) = backtrace {
        push_text(&mut out, "\n");
        push_text(&mut out, b);
        assert(out@ =~= mid + ("\n"@ + b@));
    }
    string_of(&out)
}

/// Whether a panic ends the process: it does unless it happened inside a
/// run, where it is caught and counts as a failed run.
pub fn panic_aborts(catching: bool) -> (abort: bool)
    ensures
        abort == !catching,
{
    !catching
}

} // verus!
