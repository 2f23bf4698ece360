//! The steps that connect to the chip behind a probe.
use crate::probe::specifier::ProbeSpecifier;
use crate::probe::{ConnectError, SETTLE_REPROBE_INTERVAL_MILLIS};
use crate::text::chars_of;
use vstd::prelude::*;

verus! {

/// Address of the register that selects what the RP2040 watchdog resets.
pub const PSM_WDSEL: u64 = 0x4001_0008;

/// Address of the control register of the RP2040 watchdog.
pub const WATCHDOG_CTRL: u64 = 0x4005_8000;

/// Selects the single-cycle IO block for the watchdog reset.
pub const PSM_SEL_SIO: u32 = 0x4000;

/// Selects processor 0 for the watchdog reset.
pub const PSM_SEL_PROC0: u32 = 0x8000;

/// Selects processor 1 for the watchdog reset.
pub const PSM_SEL_PROC1: u32 = 0x1_0000;

/// Enables the watchdog.
pub const WATCHDOG_CTRL_ENABLE: u32 = 0x4000_0000;

/// Triggers the watchdog.
pub const WATCHDOG_CTRL_TRIGGER: u32 = 0x8000_0000;

/// The wire protocol between probe and chip.
#[derive(Debug, Clone, Copy, PartialEq, Eq, Structural)]
pub enum WireProtocol {
    Swd,
    Jtag,
}

/// How to connect to a chip.
#[derive(Debug)]
pub struct Opts {
    /// The probe to use; the only attached probe where none is named.
    pub probe: Option<ProbeSpecifier>,
    /// The probe clock in kHz.
    pub speed: Option<u32>,
    /// The name of the chip.
    pub chip: String,
    /// Whether to attach while the chip is held in reset.
    pub connect_under_reset: bool,
    /// Whether to cycle the power of the probe's USB port first.
    pub power_reset: bool,
    /// Milliseconds for which the port is left without power.
    pub cycle_delay_millis: u64,
    /// Milliseconds that the probe gets to appear.
    pub max_settle_time_millis: u64,
    /// The wire protocol to ask of the probe.
    pub protocol: Option<WireProtocol>,
}

/// One thing to do to get a session with the chip.
#[derive(Debug, Clone, Copy, PartialEq, Eq, Structural)]
pub enum ConnectStep {
    /// Cycle the power of the USB port of the probe with the selector's
    /// serial number. A failure is reported and the steps go on.
    PowerCycle { delay_millis: u64 },
    /// Try to open the probe every `interval_millis` until it opens or
    /// `max_millis` have passed.
    Settle { max_millis: u64, interval_millis: u64 },
    /// Open the probe once.
    Reopen,
    /// Set the probe clock.
    SetSpeed { khz: u32 },
    /// Ask the probe for a wire protocol.
    SelectProtocol { protocol: WireProtocol },
    /// Attach to the chip, with leave to erase all of it.
    Attach { under_reset: bool },
    /// Write a word of memory through core 0.
    WriteWord { address: u64, value: u32 },
    /// Drop the session.
    Detach,
}

/// The upper-case form of an ASCII letter; any other character as it is.
pub open spec fn ascii_upper(c: char) -> char {
    if 'a' <= c <= 'z' {
        ((c as u32) - 32) as char
    } else {
        c
    }
}

/// The chip is of the RP2040 family: its name begins with `RP2040`, in
/// either case of the letters.
pub open spec fn names_rp2040(chip: Seq<char>) -> bool {
    &&& chip.len() >= 6
    &&& ascii_upper(chip[0]) == 'R'
    &&& ascii_upper(chip[1]) == 'P'
    &&& chip[2] == '2'
    &&& chip[3] == '0'
    &&& chip[4] == '4'
    &&& chip[5] == '0'
}

/// Whether the chip is of the RP2040 family.
pub fn is_rp2040(chip: &str) -> (r: bool)
    ensures
        r == names_rp2040(chip@),
{
    let c = chars_of(chip);
    c.len() >= 6 && (c[0] == 'R' || c[0] == 'r') && (c[1] == 'P' || c[1] == 'p') && c[2] == '2'
        && c[3] == '0' && c[4] == '4' && c[5] == '0'
}

/// The steps that reset both cores of an RP2040 through its watchdog. The
/// reset ends the session, so the probe is opened again afterwards.
pub open spec fn rp2040_steps(speed: Option<u32>) -> Seq<ConnectStep> {
    speed_steps(speed) + seq![
        ConnectStep::Attach { under_reset: false },
        ConnectStep::WriteWord {
            address: PSM_WDSEL,
            value: (PSM_SEL_SIO + PSM_SEL_PROC0 + PSM_SEL_PROC1) as u32,
        },
        ConnectStep::WriteWord { address: WATCHDOG_CTRL, value: WATCHDOG_CTRL_ENABLE },
        ConnectStep::WriteWord {
            address: WATCHDOG_CTRL,
            value: (WATCHDOG_CTRL_ENABLE + WATCHDOG_CTRL_TRIGGER) as u32,
        },
        ConnectStep::Detach,
        ConnectStep::Reopen,
    ]
}

/// The step that sets the probe clock, where a clock is asked for.
pub open spec fn speed_steps(speed: Option<u32>) -> Seq<ConnectStep> {
    match speed {
        Some(khz) => seq![ConnectStep::SetSpeed { khz }],
        None => Seq::empty(),
    }
}

/// The step that selects the wire protocol, where one is asked for.
pub open spec fn protocol_steps(protocol: Option<WireProtocol>) -> Seq<ConnectStep> {
    match protocol {
        Some(protocol) => seq![ConnectStep::SelectProtocol { protocol }],
        None => Seq::empty(),
    }
}

/// The step that cycles the power, where that is asked for.
pub open spec fn power_steps(power_reset: bool, delay_millis: u64) -> Seq<ConnectStep> {
    if power_reset {
        seq![ConnectStep::PowerCycle { delay_millis }]
    } else {
        Seq::empty()
    }
}

/// What a connection needs to know of its options.
pub struct OptsModel {
    pub has_serial: bool,
    pub speed: Option<u32>,
    pub chip: Seq<char>,
    pub connect_under_reset: bool,
    pub power_reset: bool,
    pub cycle_delay_millis: u64,
    pub max_settle_time_millis: u64,
    pub protocol: Option<WireProtocol>,
}

impl View for Opts {
    type V = OptsModel;

    open spec fn view(&self) -> OptsModel {
        OptsModel {
            has_serial: self.probe matches Some(p) && p.serial is Some,
            speed: self.speed,
            chip: self.chip@,
            connect_under_reset: self.connect_under_reset,
            power_reset: self.power_reset,
            cycle_delay_millis: self.cycle_delay_millis,
            max_settle_time_millis: self.max_settle_time_millis,
            protocol: self.protocol,
        }
    }
}

/// The steps of a connection. A power cycle needs the serial number of the
/// probe. The probe is then given its time to appear. An RP2040 has both
/// cores reset first. At last the clock and the protocol are set where they
/// are asked for, and the chip is attached to.
pub open spec fn connect_steps(opts: OptsModel) -> Result<Seq<ConnectStep>, ConnectError> {
    if opts.power_reset && !opts.has_serial {
        Err(ConnectError::PowerResetNeedsSerial)
    } else {
        Ok(
            power_steps(opts.power_reset, opts.cycle_delay_millis) + seq![
                ConnectStep::Settle {
                    max_millis: opts.max_settle_time_millis,
                    interval_millis: SETTLE_REPROBE_INTERVAL_MILLIS,
                },
            ] + (if names_rp2040(opts.chip) {
                rp2040_steps(opts.speed)
            } else {
                Seq::empty()
            }) + speed_steps(opts.speed) + protocol_steps(opts.protocol) + seq![
                ConnectStep::Attach { under_reset: opts.connect_under_reset },
            ],
        )
    }
}

fn push_speed(steps: &mut Vec<ConnectStep>, speed: Option<u32>)
    ensures
        final(steps)@ == old(steps)@ + speed_steps(speed),
{
    if let Some(khz) = speed {
        steps.push(ConnectStep::SetSpeed { khz });
        assert(steps@ =~= old(steps)@ + speed_steps(speed));
    } else {
        assert(steps@ =~= old(steps)@ + speed_steps(speed));
    }
}

/// Lists the steps of a connection.
pub fn connect(opts: &Opts) -> (r: Result<Vec<ConnectStep>, ConnectError>)
    ensures
        match r {
            Ok(steps) => connect_steps(opts@) == Ok::<Seq<ConnectStep>, ConnectError>(steps@),
            Err(e) => connect_steps(opts@) == Err::<Seq<ConnectStep>, ConnectError>(e),
        },
{
    let mut steps: Vec<ConnectStep> = Vec::new();
    if opts.power_reset {
        let has_serial = match &opts.probe {
            Some(p) => p.serial.is_some(),
            None => false,
        };
        if !has_serial {
            return Err(ConnectError::PowerResetNeedsSerial);
        }
        steps.push(ConnectStep::PowerCycle { delay_millis: opts.cycle_delay_millis });
    }
    steps.push(
        ConnectStep::Settle {
            max_millis: opts.max_settle_time_millis,
            interval_millis: SETTLE_REPROBE_INTERVAL_MILLIS,
        },
    );
    let ghost head = power_steps(opts.power_reset, opts.cycle_delay_millis) + seq![
        ConnectStep::Settle {
            max_millis: opts.max_settle_time_millis,
            interval_millis: SETTLE_REPROBE_INTERVAL_MILLIS,
        },
    ];
    assert(steps@ =~= head);
    if is_rp2040(opts.chip.as_str()) {
        push_speed(&mut steps, opts.speed);
        steps.push(ConnectStep::Attach { under_reset: false });
        steps.push(
            ConnectStep::WriteWord {
                address: PSM_WDSEL,
                value: PSM_SEL_SIO + PSM_SEL_PROC0 + PSM_SEL_PROC1,
            },
        );
        steps.push(ConnectStep::WriteWord { address: WATCHDOG_CTRL, value: WATCHDOG_CTRL_ENABLE });
        steps.push(
            ConnectStep::WriteWord {
                address: WATCHDOG_CTRL,
                value: WATCHDOG_CTRL_ENABLE + WATCHDOG_CTRL_TRIGGER,
            },
        );
        steps.push(ConnectStep::Detach);
        steps.push(ConnectStep::Reopen);
        assert(steps@ =~= head + rp2040_steps(opts.speed));
    }
    let ghost quirk = if names_rp2040(opts.chip@) {
        rp2040_steps(opts.speed)
    } else {
        Seq::empty()
    };
    assert(steps@ =~= head + quirk);
    push_speed(&mut steps, opts.speed);
    if let Some(protocol) = opts.protocol {
        steps.push(ConnectStep::SelectProtocol { protocol });
    }
    steps.push(ConnectStep::Attach { under_reset: opts.connect_under_reset });
    assert(steps@ =~= head + quirk + speed_steps(opts.speed) + protocol_steps(opts.protocol)
        + seq![ConnectStep::Attach { under_reset: opts.connect_under_reset }]);
    Ok(steps)
}

/// What to do while a probe settles.
#[derive(Debug, Clone, Copy, PartialEq, Eq, Structural)]
pub enum SettleAction {
    /// Sleep, then try to open the probe.
    SleepThenOpen { millis: u64 },
    /// Use the probe that opened.
    Proceed,
    /// Give up: the probe did not appear.
    GiveUp,
}

/// What follows in the settle loop. `opened` tells how the last try went,
/// if there was one. A probe that opened is used. Otherwise the next try is
/// made after the interval, unless more than the settle time has passed.
pub open spec fn settle_decision(
    opened: Option<bool>,
    elapsed_millis: u64,
    max_millis: u64,
) -> SettleAction {
    if opened == Some(true) {
        SettleAction::Proceed
    } else if elapsed_millis > max_millis {
        SettleAction::GiveUp
    } else {
        SettleAction::SleepThenOpen { millis: SETTLE_REPROBE_INTERVAL_MILLIS }
    }
}

/// Decides what follows in the settle loop.
pub fn settle_step(opened: Option<bool>, elapsed_millis: u64, max_millis: u64) -> (action:
    SettleAction)
    ensures
        action == settle_decision(opened, elapsed_millis, max_millis),
{
    if let Some(true) = opened {
        SettleAction::Proceed
    } else if elapsed_millis > max_millis {
        SettleAction::GiveUp
    } else {
        SettleAction::SleepThenOpen { millis: SETTLE_REPROBE_INTERVAL_MILLIS }
    }
}

/// No try to open the probe is made once the settle time has passed, and a
/// probe that has not appeared by then is an error.
pub proof fn lemma_settle_is_bounded(opened: Option<bool>, elapsed_millis: u64, max_millis: u64)
    requires
        elapsed_millis > max_millis,
    ensures
        settle_decision(opened, elapsed_millis, max_millis) != (SettleAction::SleepThenOpen {
            millis: SETTLE_REPROBE_INTERVAL_MILLIS,
        }),
        opened != Some(true) ==> settle_decision(opened, elapsed_millis, max_millis)
            == SettleAction::GiveUp,
{
}

} // verus!
