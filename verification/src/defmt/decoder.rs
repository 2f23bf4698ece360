//! The table of log formats of an image, the places of its log
//! statements, and what draining the log stream reports.
use crate::defmt::{
    device_record, device_record_of, drain_action, drain_decision, find_location,
    lacks_debug_info, location_at, lost_frame_record, lost_frame_warning, DecodeResult,
    DeviceFrame, DrainAction, FrameModel, Location, LogRecord, RecordModel,
};
use vstd::prelude::*;

verus! {

/// `defmt_decoder::Table`, the table of log formats of an image: carried
/// through as it is.
#[verifier::external_type_specification]
#[verifier::external_body]
pub struct ExTable(defmt_decoder::Table);

/// `anyhow::Error`, the error of the decoder library: carried through as
/// it is.
#[verifier::external_type_specification]
#[verifier::external_body]
pub struct ExAnyhowError(anyhow::Error);

/// Whether an image has a table of log formats.
#[derive(Debug, Clone, Copy, PartialEq, Eq, Structural)]
pub enum TablePresence {
    /// It has one.
    Present,
    /// It has none.
    Absent,
    /// It cannot be read.
    Unreadable,
}

/// What the decoder library finds when it looks for the table of log
/// formats in an image.
pub uninterp spec fn table_presence(elf: Seq<u8>) -> TablePresence;

/// `defmt_decoder::Table::parse` reads the table of log formats out of an
/// image: `Ok(None)` where the image has none. Nothing is claimed of the
/// table itself, only that the kind of outcome is the one the library has
/// for these bytes.
#[verifier::external_body]
fn parse_table(elf: &[u8]) -> (r: Result<Option<defmt_decoder::Table>, anyhow::Error>)
    ensures
        table_presence(elf@) == match r {
            Ok(Some(_)) => TablePresence::Present,
            Ok(None) => TablePresence::Absent,
            Err(_) => TablePresence::Unreadable,
        },
{
    defmt_decoder::Table::parse(elf)
}

/// Whether the table has no entry.
pub uninterp spec fn table_empty(table: &defmt_decoder::Table) -> bool;

/// `defmt_decoder::Table::is_empty` says whether the table has no entry.
/// The contract claims only that the answer is the one the library has for
/// this table.
#[verifier::external_body]
fn table_is_empty(table: &defmt_decoder::Table) -> (r: bool)
    ensures
        r == table_empty(table),
{
    table.is_empty()
}

/// The indices of the locations are strictly increasing.
pub open spec fn indices_increase(locations: Seq<Location>) -> bool {
    forall|i: int, j: int|
        0 <= i < j < locations.len() ==> (#[trigger] locations[i]).index < (
        #[trigger] locations[j]).index
}

/// What a location says apart from its file: the table index of the log
/// statement, its line, and its module.
pub struct PlaceModel {
    pub index: u64,
    pub line: u64,
    pub module: Seq<char>,
}

/// What the locations say apart from their files.
pub open spec fn places(locations: Seq<Location>) -> Seq<PlaceModel> {
    locations.map_values(
        |l: Location| PlaceModel { index: l.index, line: l.line, module: l.module@ },
    )
}

/// What the decoder library reads from the debug information of an image
/// for the log statements of a table: index, line and module of each
/// statement that it finds, by increasing index, or `None` where it cannot
/// read the debug information. The files are left out: how a path is
/// written differs between platforms.
pub uninterp spec fn table_places(table: &defmt_decoder::Table, elf: Seq<u8>) -> Option<
    Seq<PlaceModel>,
>;

/// `defmt_decoder::Table::get_locations` reads from the debug information
/// of an image where each log statement stands, as a map from table index
/// to location. The map is handed out entry by entry in the order of its
/// keys, which a `BTreeMap` walks in increasing order. Of index, line and
/// module the contract claims only that they are those the library has for
/// this table and these bytes; of the files it claims nothing.
#[verifier::external_body]
fn table_locations(table: &defmt_decoder::Table, elf: &[u8]) -> (r: Result<
    Vec<Location>,
    anyhow::Error,
>)
    ensures
        r matches Ok(locations) ==> indices_increase(locations@),
        match r {
            Ok(locations) => table_places(table, elf@) == Some(places(locations@)),
            Err(_) => table_places(table, elf@) is None,
        },
{
    let map = table.get_locations(elf)?;
    Ok(
        map.into_iter().map(
            |(index, l)| Location {
                index,
                file: l.file.to_string_lossy().into_owned(),
                line: l.line,
                module: l.module,
            },
        ).collect(),
    )
}

/// `std::path::Path::strip_prefix` gives the rest of `file` below the
/// directory `base`, or nothing where `file` does not lie below it. How a
/// path falls into components differs between platforms, so nothing is
/// claimed of the answer.
#[verifier::external_body]
fn strip_base(file: &str, base: &str) -> (r: Option<String>) {
    std::path::Path::new(file).strip_prefix(base).ok().map(|p| p.display().to_string())
}

/// Whether the encoding of the table's stream finds the next frame again
/// after bytes that are no frame.
pub uninterp spec fn table_recovers(table: &defmt_decoder::Table) -> bool;

/// `defmt_decoder::Encoding::can_recover`, asked of what
/// `defmt_decoder::Table::encoding` gives, says whether a stream in the
/// table's encoding recovers: the zero-delimited encoding does, the raw
/// one does not. The contract claims only that the answer is the one the
/// library has for this table.
#[verifier::external_body]
fn table_can_recover(table: &defmt_decoder::Table) -> (r: bool)
    ensures
        r == table_recovers(table),
{
    table.encoding().can_recover()
}

/// Why the log stream of an image cannot be decoded.
#[derive(Debug, Clone, Copy, PartialEq, Eq, Structural)]
pub enum TableError {
    /// The table of the image cannot be read.
    Unreadable,
    /// The image has no table.
    Missing,
    /// The locations of the log statements cannot be read.
    NoLocations,
}

/// Reads the table of log formats out of an image. An image without a table
/// is refused.
pub fn load_table(elf: &[u8]) -> (r: Result<defmt_decoder::Table, TableError>)
    ensures
        match r {
            Ok(_) => table_presence(elf@) == TablePresence::Present,
            Err(e) => e == match table_presence(elf@) {
                TablePresence::Absent => TableError::Missing,
                _ => TableError::Unreadable,
            } && table_presence(elf@) != TablePresence::Present,
        },
{
    match parse_table(elf) {
        Ok(Some(table)) => Ok(table),
        Ok(None) => Err(TableError::Missing),
        Err(_) => Err(TableError::Unreadable),
    }
}

/// What is known of an image's log statements.
pub struct Locations {
    /// Where each statement stands, by increasing table index.
    pub list: Vec<Location>,
    /// The table has entries and none of them has a location: the image
    /// was built without debug information.
    pub lacks_debug_info: bool,
}

/// Reads where the log statements of an image stand. The statements are
/// those that the decoder library finds in the debug information of the
/// image for the table; an image whose debug information it cannot read is
/// refused. A table with entries of which none has a location is noted:
/// the image was built without debug information.
pub fn load_locations(table: &defmt_decoder::Table, elf: &[u8]) -> (r: Result<
    Locations,
    TableError,
>)
    ensures
        r matches Ok(l) ==> indices_increase(l.list@) && (l.lacks_debug_info ==> l.list.len() == 0),
        match r {
            Ok(l) => table_places(table, elf@) == Some(places(l.list@)) && l.lacks_debug_info == (
            !table_empty(table) && l.list.len() == 0),
            Err(e) => e == TableError::NoLocations && table_places(table, elf@) is None,
        },
{
    match table_locations(table, elf) {
        Ok(list) => {
            let empty = table_is_empty(table);
            let lacks_debug_info = lacks_debug_info(empty, &list);
            Ok(Locations { list, lacks_debug_info })
        },
        Err(_) => Err(TableError::NoLocations),
    }
}

/// Whether a stream in the table's encoding finds the next frame again
/// after bytes that are no frame.
pub fn can_recover(table: &defmt_decoder::Table) -> (r: bool)
    ensures
        r == table_recovers(table),
{
    table_can_recover(table)
}

/// The file and line under which a frame is reported: those of its log
/// statement where the statement has a location, the file as `relative`
/// gives it where it gives one.
pub open spec fn place_of(
    frame: FrameModel,
    locations: Seq<Location>,
    relative: Option<Seq<char>>,
) -> Option<(Seq<char>, u64)> {
    match location_at(locations, frame.index) {
        None => None,
        Some(i) => Some(
            (
                match relative {
                    Some(r) => r,
                    None => locations[i].file@,
                },
                locations[i].line,
            ),
        ),
    }
}

/// The record reports the frame: it is the frame's record, under the place
/// of its log statement with the file as the path library gave it.
pub open spec fn reports(record: RecordModel, frame: FrameModel, locations: Seq<Location>) -> bool {
    exists|relative: Option<Seq<char>>|
        record == device_record_of(frame, #[trigger] place_of(frame, locations, relative))
}

/// What draining a stream has given so far.
pub struct DrainReport {
    /// The records of the frames, and a warning for each frame that was
    /// lost, in the order of the stream.
    pub records: Vec<LogRecord>,
    /// The stream cannot be decoded any further.
    pub fatal: bool,
}

/// How a report changes by what one try to decode gave. A frame adds its
/// record at the end, and lost bytes that the stream gets past add the
/// warning. A try that needs more bytes changes nothing. Bytes that are no
/// frame in a stream that does not recover make the report fatal and add
/// nothing. A report that is fatal stays so.
pub open spec fn taken(
    before: DrainReport,
    after: DrainReport,
    result: DecodeResult,
    can_recover: bool,
    locations: Seq<Location>,
) -> bool {
    match result {
        DecodeResult::Frame(frame) => {
            &&& after.fatal == before.fatal
            &&& after.records@.len() == before.records@.len() + 1
            &&& after.records@.drop_last() == before.records@
            &&& reports(after.records@.last()@, frame@, locations)
        },
        DecodeResult::NeedMore => after.fatal == before.fatal && after.records@ == before.records@,
        DecodeResult::Malformed => if can_recover {
            &&& after.fatal == before.fatal
            &&& after.records@.len() == before.records@.len() + 1
            &&& after.records@.drop_last() == before.records@
            &&& after.records@.last()@ == lost_frame_record()
        } else {
            after.fatal && after.records@ == before.records@
        },
    }
}

impl DrainReport {
    /// A report of nothing yet.
    pub fn new() -> (report: DrainReport)
        ensures
            report.records@.len() == 0,
            !report.fatal,
    {
        DrainReport { records: Vec::new(), fatal: false }
    }

    /// Takes what one try to decode gave, and says how draining goes on:
    /// whether to decode on, to wait for more bytes, or to give the stream
    /// up. Frames are reported under the places of their log statements,
    /// with files relative to `base` where they lie below it.
    pub fn take(
        &mut self,
        result: DecodeResult,
        can_recover: bool,
        locations: &Vec<Location>,
        base: &str,
    ) -> (action: DrainAction)
        ensures
            action == drain_decision(result, can_recover),
            taken(*old(self), *final(self), result, can_recover, locations@),
    {
        let action = drain_action(&result, can_recover);
        let ghost before = self.records@;
        match result {
            DecodeResult::Frame(frame) => {
                let record = frame_record(&frame, locations, base);
                self.records.push(record);
                assert(self.records@.drop_last() =~= before);
            },
            DecodeResult::NeedMore => {},
            DecodeResult::Malformed => {
                if can_recover {
                    self.records.push(lost_frame_warning());
                    assert(self.records@.drop_last() =~= before);
                } else {
                    self.fatal = true;
                }
            },
        }
        action
    }
}

/// Makes the record of a frame, with the place of its log statement.
pub fn frame_record(frame: &DeviceFrame, locations: &Vec<Location>, base: &str) -> (record:
    LogRecord)
    ensures
        reports(record@, frame@, locations@),
        record@.target == "device"@,
{
    let place = match find_location(locations, frame.index) {
        None => None,
        Some(i) => {
            let location = &locations[i];
            let relative = strip_base(location.file.as_str(), base);
            let ghost relative_text: Option<Seq<char>> = if relative is Some {
                Some(relative->0@)
            } else {
                None
            };
            let file = match relative {
                Some(r) => r,
                None => location.file.clone(),
            };
            assert(Some((file@, location.line)) == place_of(frame@, locations@, relative_text));
            Some((file, location.line))
        },
    };
    let record = device_record(frame, place);
    proof {
        if location_at(locations@, frame.index) is None {
            assert(place_of(frame@, locations@, None) is None);
        }
    }
    record
}

} // verus!
