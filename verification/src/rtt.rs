//! Attaching to the log channel of a running program.
use vstd::prelude::*;

verus! {

/// How often an attach is tried again after the control block was not
/// found.
pub const NUM_RETRIES: usize = 10;

/// How one try to attach ended.
#[derive(Debug, Clone, Copy, PartialEq, Eq, Structural)]
pub enum AttachResult {
    /// The control block was found; it has this many up channels.
    Attached { up_channels: usize },
    /// There is no control block at the address, or not yet.
    ControlBlockNotFound,
    /// The probe or the target failed.
    Failed,
}

/// Why there is no log channel.
#[derive(Debug, Clone, Copy, PartialEq, Eq, Structural)]
pub enum RttError {
    /// The control block was not found in any of the tries.
    RetriesExhausted,
    /// A try failed for another reason.
    AttachFailed,
    /// The control block has no up channel 0.
    NoUpChannel,
}

/// What to do after a try.
#[derive(Debug, Clone, Copy, PartialEq, Eq, Structural)]
pub enum AttachAction {
    /// Try again at once, at the same address.
    Retry,
    /// Use up channel 0 of what was attached.
    UseChannel,
    /// Give up.
    Fail { error: RttError },
}

/// The tries to attach that were made so far.
#[derive(Debug, Clone, Copy, PartialEq, Eq, Structural)]
pub struct RttAttach {
    pub tries: usize,
}

/// What follows a try, `tries` being the number of tries made before it. A
/// control block that is not found is tried again until the first try and
/// `NUM_RETRIES` more were made. A control block that was found must have
/// an up channel. Any other failure ends the tries at once.
pub open spec fn attach_decision(tries: nat, result: AttachResult) -> AttachAction {
    match result {
        AttachResult::Attached { up_channels } => if up_channels == 0 {
            AttachAction::Fail { error: RttError::NoUpChannel }
        } else {
            AttachAction::UseChannel
        },
        AttachResult::ControlBlockNotFound => if tries < NUM_RETRIES {
            AttachAction::Retry
        } else {
            AttachAction::Fail { error: RttError::RetriesExhausted }
        },
        AttachResult::Failed => AttachAction::Fail { error: RttError::AttachFailed },
    }
}

impl RttAttach {
    /// Before the first try.
    pub fn start() -> (attach: RttAttach)
        ensures
            attach.tries == 0,
    {
        RttAttach { tries: 0 }
    }

    /// Takes the result of a try and says what to do.
    pub fn step(&mut self, result: AttachResult) -> (action: AttachAction)
        ensures
            action == attach_decision(old(self).tries as nat, result),
            final(self).tries == if old(self).tries < usize::MAX {
                old(self).tries + 1
            } else {
                old(self).tries as int
            },
    {
        let tries = self.tries;
        if tries < usize::MAX {
            self.tries = tries + 1;
        }
        match result {
            AttachResult::Attached { up_channels } => {
                if up_channels == 0 {
                    AttachAction::Fail { error: RttError::NoUpChannel }
                } else {
                    AttachAction::UseChannel
                }
            },
            AttachResult::ControlBlockNotFound => {
                if tries < NUM_RETRIES {
                    AttachAction::Retry
                } else {
                    AttachAction::Fail { error: RttError::RetriesExhausted }
                }
            },
            AttachResult::Failed => AttachAction::Fail { error: RttError::AttachFailed },
        }
    }
}

/// At most eleven tries are made: after the first try and ten more, no
/// result asks for another.
pub proof fn lemma_at_most_eleven_tries(tries: nat, result: AttachResult)
    ensures
        attach_decision(tries, result) == AttachAction::Retry ==> tries + 1 <= NUM_RETRIES,
        tries + 1 > NUM_RETRIES ==> attach_decision(tries, result) != AttachAction::Retry,
        attach_decision(tries, result) == AttachAction::Retry ==> result
            == AttachResult::ControlBlockNotFound,
{
}

} // verus!
