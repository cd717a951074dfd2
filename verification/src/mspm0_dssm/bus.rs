//! What the mailbox workflows ask of the debug interface, and what they are
//! told.

use super::FullyQualifiedApAddress;
use super::response::BootDiagnostic;
use vstd::prelude::*;

verus! {

/// One thing to do on the debug interface, or around it.
#[derive(Clone, Copy, Debug, PartialEq, Eq)]
pub enum Action {
    /// Write `value` to a register of an access port.
    WriteApRegister {
        /// The access port.
        ap: FullyQualifiedApAddress,
        /// The register.
        address: u64,
        /// What to write.
        value: u32,
    },
    /// Read a register of an access port.
    ReadApRegister {
        /// The access port.
        ap: FullyQualifiedApAddress,
        /// The register.
        address: u64,
    },
    /// Drive the pins that `select` names to the levels in `output`, and wait
    /// for them to settle.
    SwjPins {
        /// The levels, one bit for each pin.
        output: u32,
        /// The pins to drive, one bit for each.
        select: u32,
        /// How long to wait.
        wait: u32,
    },
    /// Let this many milliseconds pass.
    Sleep(u64),
    /// Bring the debug port back up.
    Reinitialize,
    /// Read a monotonic clock.
    ReadClock,
    /// Keep the debug sequence from running its PWR-AP recovery.
    SuppressRecovery,
    /// Let the debug sequence run its PWR-AP recovery again.
    ResumeRecovery,
    /// Tell the user why the bootcode may have stayed silent.
    ReportTimeout(BootDiagnostic),
}

/// How an action went. `E` is the error type of the debug interface.
#[derive(Debug, PartialEq, Eq)]
pub enum Event<E> {
    /// It was done, with nothing to tell.
    Done,
    /// A register was read.
    Value(u32),
    /// The clock was read, in nanoseconds since some fixed moment.
    Clock(u128),
    /// It failed.
    Failed(E),
}

impl Action {
    /// Whether `event` can be the event of this action.
    ///
    /// Only what crosses the debug interface can fail.
    pub open spec fn answered_by<E>(self, event: Event<E>) -> bool {
        match self {
            Action::WriteApRegister { .. } | Action::SwjPins { .. } | Action::Reinitialize => event
                is Done || event is Failed,
            Action::ReadApRegister { .. } => event is Value || event is Failed,
            Action::ReadClock => event is Clock,
            Action::Sleep(_)
            | Action::SuppressRecovery
            | Action::ResumeRecovery
            | Action::ReportTimeout(_) => event is Done,
        }
    }

    /// A write of `value` to the mailbox register at `address`.
    pub open spec fn mailbox_write(address: u64, value: u32) -> Action {
        Action::WriteApRegister {
            ap: FullyQualifiedApAddress::default_dp(2),
            address,
            value,
        }
    }

    /// A read of the mailbox register at `address`.
    pub open spec fn mailbox_read(address: u64) -> Action {
        Action::ReadApRegister { ap: FullyQualifiedApAddress::default_dp(2), address }
    }

    /// A read of the boot diagnostic.
    pub open spec fn bootdiag_read() -> Action {
        Action::ReadApRegister {
            ap: FullyQualifiedApAddress::default_dp(1),
            address: super::BOOTDIAG,
        }
    }

    /// Pulling nRST low.
    pub open spec fn assert_reset() -> Action {
        Action::SwjPins { output: 0, select: super::SWJ_PIN_NRESET, wait: 0 }
    }

    /// Letting nRST go high.
    pub open spec fn release_reset() -> Action {
        Action::SwjPins { output: super::SWJ_PIN_NRESET, select: super::SWJ_PIN_NRESET, wait: 0 }
    }
}

/// What answers what: a value answers the reads of a register, the time answers
/// the reads of the clock, and everything else is answered by its being done.
/// Whatever crosses the debug interface can fail instead, in any way, and
/// nothing else can.
pub proof fn law_answers<E>(action: Action, value: u32, time: u128, error: E)
    ensures
        action.answered_by(Event::<E>::Value(value)) <==> action is ReadApRegister,
        action.answered_by(Event::<E>::Clock(time)) <==> action is ReadClock,
        action.answered_by(Event::<E>::Done) <==> !(action is ReadApRegister) && !(action
            is ReadClock),
        action.answered_by(Event::<E>::Failed(error)) <==> action is ReadApRegister || action
            is WriteApRegister || action is SwjPins || action is Reinitialize,
{
}

} // verus!
