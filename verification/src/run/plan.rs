//! The steps that bring a target from its reset to the running program.
use crate::elf::{clear_thumb_bit, elf_facts, thumb_address, ElfFacts};
use crate::run::{
    classify_run_mode, run_mode_of, MemoryRegion, Options, RunError, RunMode, PC, SP,
    TIMEOUT_MILLIS,
};
use vstd::prelude::*;

verus! {

/// Address of the vector table offset register.
pub const VTOR: u32 = 0xE000_ED08;

/// What is written over the start of the RTT control block so that the
/// program sets the block up anew.
pub const RTT_SCRUB: u32 = 0xdead_c0de;

/// Offset of the flags word of up channel 0 in the RTT control block.
pub const RTT_FLAGS_OFFSET: u32 = 44;

/// The flags value under which the program waits while its log buffer is
/// full, so that nothing is lost.
pub const RTT_BLOCK_IF_FULL: u32 = 2;

/// The two bytes of the `BKPT` instruction, low byte first.
pub const BKPT_LOW: u8 = 0x00;

/// The two bytes of the `BKPT` instruction, high byte.
pub const BKPT_HIGH: u8 = 0xbe;

/// Milliseconds that a flash-resident program gets to reach `main`.
pub const MAIN_TIMEOUT_MILLIS: u64 = 5000;

/// One thing to do on the target. Every step is done on core 0 but
/// `ResetOtherCores`; a step that fails ends the run.
#[derive(Debug, Clone, Copy, PartialEq, Eq, Structural)]
pub enum Step {
    /// Reset every core but core 0.
    ResetOtherCores,
    /// Reset the core and halt it within the time given.
    ResetAndHalt { timeout_millis: u64 },
    /// Transfer the image with the chip's loader and commit it: through the
    /// flash programmer where the image lies in flash, straight into RAM
    /// where it lies there.
    Download { keep_unwritten_bytes: bool, verify: bool },
    /// Read the word at the address and write it back.
    RewriteWord { address: u32 },
    /// Fail unless the core has a hardware breakpoint unit.
    RequireBreakpointUnit,
    /// Write a core register.
    WriteRegister { register: u16, value: u32 },
    /// Write a word of memory.
    WriteWord { address: u32, value: u32 },
    /// Read a word of memory back and fail unless it holds the value.
    ExpectWord { address: u32, value: u32 },
    /// Write two bytes of memory.
    WriteBytes { address: u32, low: u8, high: u8 },
    /// Set a hardware breakpoint.
    SetBreakpoint { address: u32 },
    /// Clear a hardware breakpoint.
    ClearBreakpoint { address: u32 },
    /// Let the core run.
    Run,
    /// Wait until the core has halted, at most for the time given.
    WaitHalted { timeout_millis: u64 },
    /// Attach to the RTT control block at exactly this address.
    AttachRtt { address: u32 },
}

/// What a run takes from image, chip and options before it touches the
/// target.
#[derive(Debug, Clone, Copy, PartialEq, Eq, Structural)]
pub struct Launch {
    pub facts: ElfFacts,
    pub mode: RunMode,
    pub do_flash: bool,
}

/// The steps that transfer the image: none where the transfer is skipped.
pub open spec fn transfer_steps(do_flash: bool) -> Seq<Step> {
    if do_flash {
        seq![
            Step::ResetAndHalt { timeout_millis: TIMEOUT_MILLIS },
            Step::Download { keep_unwritten_bytes: true, verify: true },
        ]
    } else {
        Seq::empty()
    }
}

/// The steps that get the core ready: the word at the start of a
/// RAM-resident image is written once more, the core is reset and halted,
/// and it must have a breakpoint unit.
pub open spec fn prepare_steps(launch: Launch) -> Seq<Step> {
    let rewrite = if launch.mode == RunMode::Ram {
        seq![Step::RewriteWord { address: launch.facts.vector_table.location }]
    } else {
        Seq::empty()
    };
    rewrite + seq![
        Step::ResetAndHalt { timeout_millis: TIMEOUT_MILLIS },
        Step::RequireBreakpointUnit,
    ]
}

/// The steps that boot the program up to the point where logging can be
/// switched on. In RAM the core is pointed at the image by hand and a
/// `BKPT` instruction is laid over the hard fault handler. From flash the
/// control block is scrubbed, the program runs up to `main`, and a hardware
/// breakpoint guards the hard fault handler.
pub open spec fn boot_steps(launch: Launch) -> Seq<Step> {
    let table = launch.facts.vector_table;
    let fault = thumb_address(table.hard_fault);
    match launch.mode {
        RunMode::Ram => seq![
            Step::WriteRegister { register: PC, value: table.reset },
            Step::WriteRegister { register: SP, value: table.initial_sp },
            Step::WriteWord { address: VTOR, value: table.location },
            Step::ExpectWord { address: VTOR, value: table.location },
            Step::WriteBytes { address: fault, low: BKPT_LOW, high: BKPT_HIGH },
        ],
        RunMode::Flash => seq![
            Step::WriteWord { address: launch.facts.rtt_addr, value: RTT_SCRUB },
            Step::SetBreakpoint { address: launch.facts.main_addr },
            Step::Run,
            Step::WaitHalted { timeout_millis: MAIN_TIMEOUT_MILLIS },
            Step::ClearBreakpoint { address: launch.facts.main_addr },
            Step::SetBreakpoint { address: fault },
        ],
    }
}

/// The steps that switch logging on and release the program.
pub open spec fn release_steps(launch: Launch) -> Seq<Step> {
    seq![
        Step::WriteWord {
            address: (launch.facts.rtt_addr + RTT_FLAGS_OFFSET) as u32,
            value: RTT_BLOCK_IF_FULL,
        },
        Step::Run,
        Step::AttachRtt { address: launch.facts.rtt_addr },
    ]
}

/// All steps of a launch, in the order in which they are done.
pub open spec fn launch_steps(launch: Launch) -> Seq<Step> {
    seq![Step::ResetOtherCores] + transfer_steps(launch.do_flash) + prepare_steps(launch)
        + boot_steps(launch) + release_steps(launch)
}

/// What a run is to be, or why there is none: the chip must map the vector
/// table, and the flags word of the control block must have an address.
pub open spec fn launch_of(facts: ElfFacts, map: Seq<MemoryRegion>, do_flash: bool) -> Result<
    Launch,
    RunError,
> {
    match run_mode_of(map, facts.vector_table.location) {
        None => Err(RunError::UnmappedVectorTable),
        Some(mode) => if facts.rtt_addr + RTT_FLAGS_OFFSET > u32::MAX {
            Err(RunError::RttOutOfRange)
        } else {
            Ok(Launch { facts, mode, do_flash })
        },
    }
}

/// The launch of raw image bytes on a chip: the image must yield its facts,
/// and the launch must be possible.
pub open spec fn launch_of_elf(elf: Seq<u8>, map: Seq<MemoryRegion>, do_flash: bool) -> Result<
    Launch,
    RunError,
> {
    match elf_facts(elf) {
        Err(e) => Err(RunError::Elf(e)),
        Ok(facts) => launch_of(facts, map, do_flash),
    }
}

/// A launch and its steps.
#[derive(Debug)]
pub struct RunPlan {
    pub launch: Launch,
    pub steps: Vec<Step>,
}

/// Plans a run: reads the image, decides how it is launched on the chip,
/// and lists the steps.
pub fn run(elf: &[u8], map: &Vec<MemoryRegion>, options: &Options) -> (r: Result<RunPlan, RunError>)
    ensures
        match r {
            Ok(plan) => launch_of_elf(elf@, map@, options.do_flash) == Ok::<Launch, RunError>(
                plan.launch,
            ) && plan.steps@ == launch_steps(plan.launch),
            Err(e) => launch_of_elf(elf@, map@, options.do_flash) == Err::<Launch, RunError>(e),
        },
{
    let facts = match ElfFacts::from_elf(elf) {
        Ok(f) => f,
        Err(e) => {
            return Err(RunError::Elf(e));
        },
    };
    let launch = match Launch::new(facts, map, options) {
        Ok(l) => l,
        Err(e) => {
            return Err(e);
        },
    };
    let steps = launch.steps();
    Ok(RunPlan { launch, steps })
}

impl Launch {
    /// The launch is one that `new` makes: its flags word has an address.
    pub open spec fn well_formed(self) -> bool {
        self.facts.rtt_addr + RTT_FLAGS_OFFSET <= u32::MAX
    }

    /// Decides how an image is launched on a chip.
    pub fn new(facts: ElfFacts, map: &Vec<MemoryRegion>, options: &Options) -> (r: Result<
        Launch,
        RunError,
    >)
        ensures
            r == launch_of(facts, map@, options.do_flash),
            r matches Ok(launch) ==> launch.well_formed(),
    {
        let mode = match classify_run_mode(map, facts.vector_table.location) {
            Ok(mode) => mode,
            Err(e) => {
                return Err(e);
            },
        };
        if facts.rtt_addr > u32::MAX - RTT_FLAGS_OFFSET {
            return Err(RunError::RttOutOfRange);
        }
        Ok(Launch { facts, mode, do_flash: options.do_flash })
    }

    /// Lists the steps of the launch.
    pub fn steps(&self) -> (steps: Vec<Step>)
        requires
            self.well_formed(),
        ensures
            steps@ == launch_steps(*self),
    {
        let table = self.facts.vector_table;
        let fault = clear_thumb_bit(table.hard_fault);
        let mut steps: Vec<Step> = Vec::new();
        steps.push(Step::ResetOtherCores);
        if self.do_flash {
            steps.push(Step::ResetAndHalt { timeout_millis: TIMEOUT_MILLIS });
            steps.push(Step::Download { keep_unwritten_bytes: true, verify: true });
        }
        if self.mode == RunMode::Ram {
            steps.push(Step::RewriteWord { address: table.location });
        }
        steps.push(Step::ResetAndHalt { timeout_millis: TIMEOUT_MILLIS });
        steps.push(Step::RequireBreakpointUnit);
        assert(steps@ =~= seq![Step::ResetOtherCores] + transfer_steps(self.do_flash)
            + prepare_steps(*self));
        match self.mode {
            RunMode::Ram => {
                steps.push(Step::WriteRegister { register: PC, value: table.reset });
                steps.push(Step::WriteRegister { register: SP, value: table.initial_sp });
                steps.push(Step::WriteWord { address: VTOR, value: table.location });
                steps.push(Step::ExpectWord { address: VTOR, value: table.location });
                steps.push(Step::WriteBytes { address: fault, low: BKPT_LOW, high: BKPT_HIGH });
            },
            RunMode::Flash => {
                steps.push(Step::WriteWord { address: self.facts.rtt_addr, value: RTT_SCRUB });
                steps.push(Step::SetBreakpoint { address: self.facts.main_addr });
                steps.push(Step::Run);
                steps.push(Step::WaitHalted { timeout_millis: MAIN_TIMEOUT_MILLIS });
                steps.push(Step::ClearBreakpoint { address: self.facts.main_addr });
                steps.push(Step::SetBreakpoint { address: fault });
            },
        }
        assert(steps@ =~= seq![Step::ResetOtherCores] + transfer_steps(self.do_flash)
            + prepare_steps(*self) + boot_steps(*self));
        steps.push(
            Step::WriteWord {
                address: self.facts.rtt_addr + RTT_FLAGS_OFFSET,
                value: RTT_BLOCK_IF_FULL,
            },
        );
        steps.push(Step::Run);
        steps.push(Step::AttachRtt { address: self.facts.rtt_addr });
        assert(steps@ =~= launch_steps(*self));
        steps
    }
}

/// The image is on the target before the core is first let run: where a
/// launch transfers the image, the download stands before every `Run`.
pub proof fn lemma_download_before_run(launch: Launch)
    requires
        launch.do_flash,
    ensures
        launch_steps(launch)[2] == (Step::Download { keep_unwritten_bytes: true, verify: true }),
        forall|i: int|
            0 <= i < launch_steps(launch).len() && launch_steps(launch)[i] == Step::Run ==> i > 2,
{
    let steps = launch_steps(launch);
    assert(steps[0] == Step::ResetOtherCores);
    assert(steps[1] == Step::ResetAndHalt { timeout_millis: TIMEOUT_MILLIS });
    assert(steps[2] == Step::Download { keep_unwritten_bytes: true, verify: true });
}

/// A flash-resident program has halted at `main` before logging is switched
/// to blocking: the wait for the halt at the breakpoint on `main` stands
/// before the write of the flags word, and the write stands directly before
/// the release.
pub proof fn lemma_main_before_blocking(launch: Launch)
    requires
        launch.mode == RunMode::Flash,
    ensures
        ({
            let steps = launch_steps(launch);
            let n = steps.len() as int;
            &&& n >= 9
            &&& steps[n - 9] == Step::WriteWord { address: launch.facts.rtt_addr, value: RTT_SCRUB }
            &&& steps[n - 8] == Step::SetBreakpoint { address: launch.facts.main_addr }
            &&& steps[n - 7] == Step::Run
            &&& steps[n - 6] == Step::WaitHalted { timeout_millis: MAIN_TIMEOUT_MILLIS }
            &&& steps[n - 5] == Step::ClearBreakpoint { address: launch.facts.main_addr }
            &&& steps[n - 3] == Step::WriteWord {
                address: (launch.facts.rtt_addr + RTT_FLAGS_OFFSET) as u32,
                value: RTT_BLOCK_IF_FULL,
            }
            &&& steps[n - 2] == Step::Run
        }),
{
    let head = seq![Step::ResetOtherCores] + transfer_steps(launch.do_flash) + prepare_steps(
        launch,
    );
    let boot = boot_steps(launch);
    let tail = release_steps(launch);
    let steps = launch_steps(launch);
    assert(steps == head + boot + tail);
    assert(boot.len() == 6);
    assert(tail.len() == 3);
    let n = steps.len() as int;
    assert(n == head.len() + 9);
    assert forall|k: int| 0 <= k < 6 implies steps[head.len() + k] == boot[k] by {}
    assert forall|k: int| 0 <= k < 3 implies steps[head.len() + 6 + k] == tail[k] by {}
    assert(steps[n - 9] == boot[0]);
    assert(steps[n - 8] == boot[1]);
    assert(steps[n - 7] == boot[2]);
    assert(steps[n - 6] == boot[3]);
    assert(steps[n - 5] == boot[4]);
    assert(steps[n - 3] == tail[0]);
    assert(steps[n - 2] == tail[1]);
}

} // verus!
