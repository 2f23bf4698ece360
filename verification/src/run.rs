//! Running an image on a target: how it is transferred and booted, and the
//! loop that follows the program until it ends.
use crate::elf::ElfError;
use vstd::prelude::*;

pub mod dump;
pub mod plan;
pub mod state;
pub mod traceback;

verus! {

/// Number of the link register of a Cortex-M core.
pub const LR: u16 = 14;

/// Number of the program counter of a Cortex-M core.
pub const PC: u16 = 15;

/// Number of the stack pointer of a Cortex-M core.
pub const SP: u16 = 13;

/// Number of the program status register of a Cortex-M core.
pub const XPSR: u16 = 16;

/// Bit 0 of a function pointer, which marks Thumb code.
pub const THUMB_BIT: u32 = 1;

/// Milliseconds that a core gets to halt.
pub const TIMEOUT_MILLIS: u64 = 1000;

/// Milliseconds to sleep after a poll that brought no log data.
pub const POLL_SLEEP_MILLIS: u64 = 100;

/// How a run is to be made.
#[derive(Debug, Clone, Copy, PartialEq, Eq, Structural)]
pub struct Options {
    /// Whether the image is transferred to the target first.
    pub do_flash: bool,
    /// Milliseconds since the epoch of the caller's clock after which the run
    /// is given up, if it is bounded at all.
    pub deadline: Option<u64>,
}

impl Default for Options {
    fn default() -> (options: Self)
        ensures
            options == (Options { do_flash: true, deadline: None }),
    {
        Options { do_flash: true, deadline: None }
    }
}

impl Options {
    /// Whether the deadline lies before `now`, in the caller's clock. A run
    /// without a deadline is never late.
    pub open spec fn late_at(self, now: u64) -> bool {
        match self.deadline {
            Some(deadline) => now > deadline,
            None => false,
        }
    }

    /// The options of a run that starts at `now` and gets `seconds`: the
    /// image is transferred, and the deadline lies that many seconds after
    /// `now`, at the end of the clock where the clock does not reach so far.
    pub fn bounded(now: u64, seconds: u64) -> (options: Options)
        ensures
            options.do_flash,
            options.deadline == Some(
                if now + seconds * 1000 <= u64::MAX {
                    (now + seconds * 1000) as u64
                } else {
                    u64::MAX
                },
            ),
    {
        let deadline = if seconds <= (u64::MAX - now) / 1000 {
            assert(seconds * 1000 <= u64::MAX - now) by (nonlinear_arith)
                requires
                    seconds <= (u64::MAX - now) / 1000,
            ;
            now + seconds * 1000
        } else {
            assert(now + seconds * 1000 > u64::MAX) by (nonlinear_arith)
                requires
                    seconds > (u64::MAX - now) / 1000,
            ;
            u64::MAX
        };
        Options { do_flash: true, deadline: Some(deadline) }
    }

    /// Whether the run is past its deadline at `now`.
    pub fn is_late(&self, now: u64) -> (late: bool)
        ensures
            late == self.late_at(now),
    {
        match self.deadline {
            Some(deadline) => now > deadline,
            None => false,
        }
    }
}

/// What kind of memory a region of a chip is.
#[derive(Debug, Clone, Copy, PartialEq, Eq, Structural)]
pub enum RegionKind {
    Ram,
    Generic,
    Nvm,
}

/// One region of a chip's memory map: the addresses from `start` up to, but
/// not including, `end`.
#[derive(Debug, Clone, Copy, PartialEq, Eq, Structural)]
pub struct MemoryRegion {
    pub kind: RegionKind,
    pub start: u64,
    pub end: u64,
}

impl MemoryRegion {
    /// The region holds the address.
    pub open spec fn holds(self, address: u32) -> bool {
        self.start <= address < self.end
    }

    /// Whether the region holds the address.
    pub fn contains(&self, address: u32) -> (r: bool)
        ensures
            r == self.holds(address),
    {
        self.start <= address as u64 && (address as u64) < self.end
    }
}

/// From where an image runs.
#[derive(Debug, Clone, Copy, PartialEq, Eq, Structural)]
pub enum RunMode {
    /// The image lies in RAM and is launched there.
    Ram,
    /// The image lies in non-volatile memory and boots after a reset.
    Flash,
}

/// The mode that a kind of memory gives an image that lies in it.
pub open spec fn mode_of(kind: RegionKind) -> RunMode {
    match kind {
        RegionKind::Ram => RunMode::Ram,
        RegionKind::Generic => RunMode::Ram,
        RegionKind::Nvm => RunMode::Flash,
    }
}

/// The mode of an image whose vector table lies at `location`: that of the
/// region that holds it, the last such region of the map where several do,
/// and none where no region does.
pub open spec fn run_mode_of(map: Seq<MemoryRegion>, location: u32) -> Option<RunMode>
    decreases map.len(),
{
    if map.len() == 0 {
        None
    } else if map.last().holds(location) {
        Some(mode_of(map.last().kind))
    } else {
        run_mode_of(map.drop_last(), location)
    }
}

/// Why a run cannot be made.
#[derive(Debug, Clone, Copy, PartialEq, Eq, Structural)]
pub enum RunError {
    /// The image was refused.
    Elf(ElfError),
    /// The vector table lies in no region of the chip's memory map.
    UnmappedVectorTable,
    /// The RTT control block lies so high that its flags word has no
    /// address.
    RttOutOfRange,
}

/// Decides from where an image runs.
pub fn classify_run_mode(map: &Vec<MemoryRegion>, location: u32) -> (r: Result<RunMode, RunError>)
    ensures
        r == match run_mode_of(map@, location) {
            Some(mode) => Ok::<RunMode, RunError>(mode),
            None => Err::<RunMode, RunError>(RunError::UnmappedVectorTable),
        },
{
    let mut mode: Option<RunMode> = None;
    let mut i: usize = 0;
    while i < map.len()
        invariant
            i <= map.len(),
            mode == run_mode_of(map@.take(i as int), location),
        decreases map.len() - i,
    {
        assert(map@.take(i + 1).drop_last() == map@.take(i as int));
        assert(map@.take(i + 1).last() == map@[i as int]);
        if map[i].contains(location) {
            mode = Some(
                match map[i].kind {
                    RegionKind::Ram => RunMode::Ram,
                    RegionKind::Generic => RunMode::Ram,
                    RegionKind::Nvm => RunMode::Flash,
                },
            );
        }
        i += 1;
    }
    assert(map@.take(map@.len() as int) == map@);
    match mode {
        Some(mode) => Ok(mode),
        None => Err(RunError::UnmappedVectorTable),
    }
}

/// An address that a region of the map holds has a mode, and where exactly
/// one region holds it, the mode is that of this region's kind.
pub proof fn lemma_run_mode_of_region(map: Seq<MemoryRegion>, location: u32, at: int)
    requires
        0 <= at < map.len(),
        map[at].holds(location),
        forall|j: int| 0 <= j < map.len() && j != at ==> !(#[trigger] map[j]).holds(location),
    ensures
        run_mode_of(map, location) == Some(mode_of(map[at].kind)),
    decreases map.len(),
{
    if at < map.len() - 1 {
        assert(!map.last().holds(location));
        lemma_run_mode_of_region(map.drop_last(), location, at);
    }
}

/// An address that no region of the map holds has no mode.
pub proof fn lemma_run_mode_unmapped(map: Seq<MemoryRegion>, location: u32)
    requires
        forall|j: int| 0 <= j < map.len() ==> !(#[trigger] map[j]).holds(location),
    ensures
        run_mode_of(map, location) is None,
    decreases map.len(),
{
    if map.len() > 0 {
        assert(!map.last().holds(location));
        lemma_run_mode_unmapped(map.drop_last(), location);
    }
}

} // verus!
