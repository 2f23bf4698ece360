//! The log stream of the program: frames in the deferred binary format come
//! off the target, are decoded against the table in the image, and become
//! log records.
use crate::text::{chars_of, push_text, str_eq, string_of};
use vstd::prelude::*;

pub mod decoder;

verus! {

/// How severe a log record is.
#[derive(Debug, Clone, Copy, PartialEq, Eq, Structural)]
pub enum Level {
    Error,
    Warn,
    Info,
    Debug,
    Trace,
}

/// A decoded frame, as plain values.
#[derive(Debug)]
pub struct DeviceFrame {
    /// The index of the frame's format in the table.
    pub index: u64,
    /// The name of the level under which the program logged.
    pub level: Option<String>,
    /// The time stamp as the program formats it.
    pub timestamp: Option<String>,
    /// The message with its arguments filled in.
    pub message: String,
}

/// Where in the sources the log statement of a table index stands.
#[derive(Debug)]
pub struct Location {
    pub index: u64,
    pub file: String,
    pub line: u64,
    pub module: String,
}

/// One log record.
#[derive(Debug)]
pub struct LogRecord {
    pub level: Level,
    pub target: String,
    pub file: Option<String>,
    pub line: Option<u32>,
    pub message: String,
}

/// A frame as the record is made from it.
pub struct FrameModel {
    pub index: u64,
    pub level: Option<Seq<char>>,
    pub timestamp: Option<Seq<char>>,
    pub message: Seq<char>,
}

/// A record as plain values.
pub struct RecordModel {
    pub level: Level,
    pub target: Seq<char>,
    pub file: Option<Seq<char>>,
    pub line: Option<u32>,
    pub message: Seq<char>,
}

impl View for DeviceFrame {
    type V = FrameModel;

    open spec fn view(&self) -> FrameModel {
        FrameModel {
            index: self.index,
            level: match self.level {
                Some(l) => Some(l@),
                None => None,
            },
            timestamp: match self.timestamp {
                Some(t) => Some(t@),
                None => None,
            },
            message: self.message@,
        }
    }
}

impl View for LogRecord {
    type V = RecordModel;

    open spec fn view(&self) -> RecordModel {
        RecordModel {
            level: self.level,
            target: self.target@,
            file: match self.file {
                Some(f) => Some(f@),
                None => None,
            },
            line: self.line,
            message: self.message@,
        }
    }
}

/// The level that a frame's level name stands for: a frame without a level
/// is information, and a name that is none of the five is an error.
pub open spec fn level_named(name: Option<Seq<char>>) -> Level {
    match name {
        None => Level::Info,
        Some(n) => if n == "trace"@ {
            Level::Trace
        } else if n == "debug"@ {
            Level::Debug
        } else if n == "info"@ {
            Level::Info
        } else if n == "warn"@ {
            Level::Warn
        } else {
            Level::Error
        },
    }
}

/// The level of a frame, from its level name.
pub fn level_of(name: &Option<String>) -> (level: Level)
    ensures
        level == level_named(
            match *name {
                Some(n) => Some(n@),
                None => None,
            },
        ),
{
    match name {
        None => Level::Info,
        Some(n) => {
            if str_eq(n.as_str(), "trace") {
                Level::Trace
            } else if str_eq(n.as_str(), "debug") {
                Level::Debug
            } else if str_eq(n.as_str(), "info") {
                Level::Info
            } else if str_eq(n.as_str(), "warn") {
                Level::Warn
            } else {
                Level::Error
            }
        },
    }
}

/// The message of a frame's record: the time stamp and a space go before
/// the frame's message where the frame has a time stamp.
pub open spec fn record_message(frame: FrameModel) -> Seq<char> {
    match frame.timestamp {
        Some(ts) => ts + " "@ + frame.message,
        None => frame.message,
    }
}

/// The record of a frame that the program logged. `place` is the file and
/// line of the log statement where they are known; the line is cut to 32
/// bits.
pub open spec fn device_record_of(frame: FrameModel, place: Option<(Seq<char>, u64)>) -> RecordModel {
    RecordModel {
        level: level_named(frame.level),
        target: "device"@,
        file: match place {
            Some((file, _)) => Some(file),
            None => None,
        },
        line: match place {
            Some((_, line)) => Some((line % 0x1_0000_0000) as u32),
            None => None,
        },
        message: record_message(frame),
    }
}

/// Makes the record of a frame that the program logged.
pub fn device_record(frame: &DeviceFrame, place: Option<(String, u64)>) -> (record: LogRecord)
    ensures
        record@ == device_record_of(
            frame@,
            match place {
                Some((file, line)) => Some((file@, line)),
                None => None,
            },
        ),
{
    let mut message: Vec<char> = Vec::new();
    if let Some(ts) = &frame.timestamp {
        push_text(&mut message, ts.as_str());
        push_text(&mut message, " ");
    }
    push_text(&mut message, frame.message.as_str());
    assert(message@ =~= record_message(frame@));
    let (file, line) = match place {
        Some((file, line)) => (Some(file), Some((line % 0x1_0000_0000) as u32)),
        None => (None, None),
    };
    LogRecord {
        level: level_of(&frame.level),
        target: string_of(&chars_of("device")),
        file,
        line,
        message: string_of(&message),
    }
}

/// The position of the first location with the index, if there is one.
pub open spec fn location_at(locations: Seq<Location>, index: u64) -> Option<int>
    decreases locations.len(),
{
    if locations.len() == 0 {
        None
    } else {
        match location_at(locations.drop_last(), index) {
            Some(i) => Some(i),
            None => if locations.last().index == index {
                Some(locations.len() - 1)
            } else {
                None
            },
        }
    }
}

/// Finds the location of a table index.
pub fn find_location(locations: &Vec<Location>, index: u64) -> (r: Option<usize>)
    ensures
        match r {
            Some(i) => location_at(locations@, index) == Some(i as int) && i < locations.len()
                && locations[i as int].index == index,
            None => location_at(locations@, index) is None,
        },
{
    let mut i: usize = 0;
    while i < locations.len()
        invariant
            i <= locations.len(),
            location_at(locations@.take(i as int), index) is None,
        decreases locations.len() - i,
    {
        assert(locations@.take(i + 1).drop_last() == locations@.take(i as int));
        assert(locations@.take(i + 1).last() == locations@[i as int]);
        if locations[i].index == index {
            proof {
                lemma_location_stays(locations@, index, i + 1);
            }
            return Some(i);
        }
        i += 1;
    }
    assert(locations@.take(locations@.len() as int) == locations@);
    None
}

/// A location found among the first `k` is the one found in the whole list.
pub proof fn lemma_location_stays(locations: Seq<Location>, index: u64, k: int)
    requires
        0 <= k <= locations.len(),
        location_at(locations.take(k), index) is Some,
    ensures
        location_at(locations, index) == location_at(locations.take(k), index),
    decreases locations.len() - k,
{
    if k == locations.len() {
        assert(locations.take(k) == locations);
    } else {
        assert(locations.take(k + 1).drop_last() == locations.take(k));
        lemma_location_stays(locations, index, k + 1);
    }
}

/// What one try to decode gave.
#[derive(Debug)]
pub enum DecodeResult {
    /// A frame.
    Frame(DeviceFrame),
    /// Nothing yet: more bytes are needed.
    NeedMore,
    /// Bytes that are no frame.
    Malformed,
}

/// What to do with what a try to decode gave.
#[derive(Debug, Clone, Copy, PartialEq, Eq, Structural)]
pub enum DrainAction {
    /// Emit the frame's record and decode on.
    Emit,
    /// Warn that a frame was lost and decode on.
    Skip,
    /// Stop until more bytes have come.
    Wait,
    /// Give the stream up.
    Abort,
}

/// How draining goes on: a frame is emitted; a lack of bytes is waited out;
/// bytes that are no frame are skipped where the encoding finds the next
/// frame again, and end the stream where it does not.
pub open spec fn drain_decision(result: DecodeResult, can_recover: bool) -> DrainAction {
    match result {
        DecodeResult::Frame(_) => DrainAction::Emit,
        DecodeResult::NeedMore => DrainAction::Wait,
        DecodeResult::Malformed => if can_recover {
            DrainAction::Skip
        } else {
            DrainAction::Abort
        },
    }
}

/// Decides how draining goes on.
pub fn drain_action(result: &DecodeResult, can_recover: bool) -> (action: DrainAction)
    ensures
        action == drain_decision(*result, can_recover),
{
    match result {
        DecodeResult::Frame(_) => DrainAction::Emit,
        DecodeResult::NeedMore => DrainAction::Wait,
        DecodeResult::Malformed => {
            if can_recover {
                DrainAction::Skip
            } else {
                DrainAction::Abort
            }
        },
    }
}

/// The warning for a frame that was lost.
pub open spec fn lost_frame_record() -> RecordModel {
    RecordModel {
        level: Level::Warn,
        target: "teleprobe::run"@,
        file: None,
        line: None,
        message: "failed to decode defmt data"@,
    }
}

/// Makes the warning for a frame that was lost.
pub fn lost_frame_warning() -> (record: LogRecord)
    ensures
        record@ == lost_frame_record(),
{
    LogRecord {
        level: Level::Warn,
        target: string_of(&chars_of("teleprobe::run")),
        file: None,
        line: None,
        message: string_of(&chars_of("failed to decode defmt data")),
    }
}

/// Whether the lack of source locations deserves a warning: the table has
/// entries, and none of them has a location.
pub fn lacks_debug_info(table_is_empty: bool, locations: &Vec<Location>) -> (warn: bool)
    ensures
        warn == (!table_is_empty && locations.len() == 0),
{
    !table_is_empty && locations.len() == 0
}

} // verus!
