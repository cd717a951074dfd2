//! Executing a DSSM mailbox command.

use super::bus::{Action, Event};
use super::poll::{poll_response, PollResponse, PollStage};
use super::reset::{toggle_reset, ToggleReset};
use super::response::DssmError;
use super::{secap, MAILBOX_SETTLE, SECAP_RCR, SECAP_RXD, SECAP_TCR, SECAP_TDR};
use crate::machine::{Machine, Progress};
use vstd::prelude::*;

verus! {

/// Executes a single DSSM mailbox command through the SECAP access port.
///
/// The flow is the one TI's tools use:
///
/// 1. Write the command to `SECAP::TCR` and `0` to `SECAP::TDR`, then clear any
///    stale response by reading `RXD`/`RCR`.
/// 2. Toggle nRST. The ROM samples the mailbox when it boots after the reset.
/// 3. Poll `SECAP::RCR` for `RX_VALID`, then read `SECAP::RXD` to fetch (and
///    acknowledge) the response.
/// 4. Toggle nRST once more so the device leaves the ROM's command handling
///    with a clean slate.
///
/// While the bootcode executes the command, the PWR-AP handling in the debug
/// sequence must not run: its system reset would abort a mass erase or factory
/// reset mid-operation. It is therefore suppressed for the duration of the poll
/// phase.
#[derive(Debug, PartialEq, Eq)]
pub struct DssmCommand<E> {
    /// The command.
    pub command: u32,
    /// How far its execution is.
    pub phase: Phase<E>,
}

/// How far the execution of a DSSM command is.
#[derive(Debug, PartialEq, Eq)]
pub enum Phase<E> {
    /// The command is written.
    WriteCommand,
    /// The payload is written.
    WritePayload,
    /// The payload of a response left over from a previous command is cleared.
    ClearData,
    /// The flags of a response left over from a previous command are cleared.
    ClearStatus,
    /// The ROM is given time to latch the command.
    Latch,
    /// The device is reset into the command.
    Reset(ToggleReset),
    /// The recovery in the debug sequence is suppressed.
    Suppress,
    /// The ROM works.
    Poll(PollResponse),
    /// The ROM responded, or did not: the recovery is resumed either way.
    Resume(Result<(), DssmError<E>>),
    /// The ROM is given time to get done.
    Finish,
    /// The device is reset back to a sane system state.
    FinalReset(ToggleReset),
    /// The device settles.
    FinalSettle,
}

impl<E> Phase<E> {
    /// What happens in this phase.
    pub open spec fn call(self, command: u32) -> Action {
        match self {
            Phase::WriteCommand => Action::mailbox_write(SECAP_TCR, command),
            Phase::WritePayload => Action::mailbox_write(SECAP_TDR, 0),
            Phase::ClearData => Action::mailbox_read(SECAP_RXD),
            Phase::ClearStatus => Action::mailbox_read(SECAP_RCR),
            Phase::Latch | Phase::Finish | Phase::FinalSettle => Action::Sleep(MAILBOX_SETTLE),
            Phase::Reset(toggle) | Phase::FinalReset(toggle) => toggle.call(),
            Phase::Suppress => Action::SuppressRecovery,
            Phase::Poll(poll) => poll.stage.call(),
            Phase::Resume(_) => Action::ResumeRecovery,
        }
    }

    /// Whether this phase can only go on if its action succeeds.
    pub open spec fn essential(self) -> bool {
        match self {
            Phase::WriteCommand
            | Phase::WritePayload
            | Phase::Reset(_)
            | Phase::FinalReset(_) => true,
            _ => false,
        }
    }
}

impl<E> Machine<Event<E>> for DssmCommand<E> {
    type Action = Action;

    type Outcome = Result<(), DssmError<E>>;

    open spec fn pending(self) -> Action {
        self.phase.call(self.command)
    }

    open spec fn expects(self, event: Event<E>) -> bool {
        self.phase.call(self.command).answered_by(event)
    }

    open spec fn step(self, event: Event<E>) -> Progress<DssmCommand<E>, Result<(), DssmError<E>>> {
        let go = |phase: Phase<E>|
            Progress::<DssmCommand<E>, Result<(), DssmError<E>>>::Pending(
                DssmCommand { command: self.command, phase },
            );
        if !self.expects(event) {
            Progress::Pending(self)
        } else if self.phase.essential() && event is Failed {
            Progress::Finished(Err(DssmError::Interface(event->Failed_0)))
        } else {
            match self.phase {
                Phase::WriteCommand => go(Phase::WritePayload),
                Phase::WritePayload => go(Phase::ClearData),
                Phase::ClearData => go(Phase::ClearStatus),
                Phase::ClearStatus => go(Phase::Latch),
                Phase::Latch => go(Phase::Reset(ToggleReset::Assert)),
                Phase::Reset(toggle) => match toggle.step(event) {
                    Progress::Pending(toggle) => go(Phase::Reset(toggle)),
                    Progress::Finished(_) => go(Phase::Suppress),
                },
                Phase::Suppress => go(
                    Phase::Poll(
                        PollResponse { command: self.command, stage: PollStage::Reconnect },
                    ),
                ),
                Phase::Poll(poll) => match poll.step(event) {
                    Progress::Pending(poll) => go(Phase::Poll(poll)),
                    Progress::Finished(response) => go(Phase::Resume(response)),
                },
                Phase::Resume(Err(error)) => Progress::Finished(Err(error)),
                Phase::Resume(Ok(())) => go(Phase::Finish),
                Phase::Finish => go(Phase::FinalReset(ToggleReset::Assert)),
                Phase::FinalReset(toggle) => match toggle.step(event) {
                    Progress::Pending(toggle) => go(Phase::FinalReset(toggle)),
                    Progress::Finished(_) => go(Phase::FinalSettle),
                },
                Phase::FinalSettle => Progress::Finished(Ok(())),
            }
        }
    }
}

/// Begins to execute `command`.
pub fn dssm_command<E>(command: u32) -> (execution: DssmCommand<E>)
    ensures
        execution == (DssmCommand::<E> { command, phase: Phase::WriteCommand }),
{
    DssmCommand { command, phase: Phase::WriteCommand }
}

impl<E> DssmCommand<E> {
    /// The action to perform now.
    pub fn action(&self) -> (action: Action)
        ensures
            action == self.pending(),
    {
        match &self.phase {
            Phase::WriteCommand => Action::WriteApRegister {
                ap: secap(),
                address: SECAP_TCR,
                value: self.command,
            },
            Phase::WritePayload => Action::WriteApRegister {
                ap: secap(),
                address: SECAP_TDR,
                value: 0,
            },
            Phase::ClearData => Action::ReadApRegister { ap: secap(), address: SECAP_RXD },
            Phase::ClearStatus => Action::ReadApRegister { ap: secap(), address: SECAP_RCR },
            Phase::Latch => Action::Sleep(MAILBOX_SETTLE),
            Phase::Reset(toggle) => toggle.action(),
            Phase::Suppress => Action::SuppressRecovery,
            Phase::Poll(poll) => poll.action(),
            Phase::Resume(_) => Action::ResumeRecovery,
            Phase::Finish => Action::Sleep(MAILBOX_SETTLE),
            Phase::FinalReset(toggle) => toggle.action(),
            Phase::FinalSettle => Action::Sleep(MAILBOX_SETTLE),
        }
    }

    /// Goes on with the event of the action.
    pub fn next(self, event: Event<E>) -> (progress: Progress<
        DssmCommand<E>,
        Result<(), DssmError<E>>,
    >)
        ensures
            progress == self.step(event),
    {
        let command: u32 = self.command;
        let phase = match (self.phase, event) {
            (Phase::WriteCommand, Event::Done) => Phase::WritePayload,
            (Phase::WritePayload, Event::Done) => Phase::ClearData,
            (Phase::WriteCommand | Phase::WritePayload, Event::Failed(error)) => {
                return Progress::Finished(Err(DssmError::Interface(error)));
            },
            (Phase::ClearData, Event::Value(_) | Event::Failed(_)) => Phase::ClearStatus,
            (Phase::ClearStatus, Event::Value(_) | Event::Failed(_)) => Phase::Latch,
            (Phase::Latch, Event::Done) => Phase::Reset(toggle_reset()),
            (Phase::Reset(toggle), event) => match toggle.next(event) {
                Progress::Pending(toggle) => Phase::Reset(toggle),
                Progress::Finished(Ok(())) => Phase::Suppress,
                Progress::Finished(Err(error)) => {
                    return Progress::Finished(Err(DssmError::Interface(error)));
                },
            },
            (Phase::Suppress, Event::Done) => Phase::Poll(poll_response(command)),
            (Phase::Poll(poll), event) => match poll.next(event) {
                Progress::Pending(poll) => Phase::Poll(poll),
                Progress::Finished(response) => Phase::Resume(response),
            },
            (Phase::Resume(Err(error)), Event::Done) => {
                return Progress::Finished(Err(error));
            },
            (Phase::Resume(Ok(())), Event::Done) => Phase::Finish,
            (Phase::Finish, Event::Done) => Phase::FinalReset(toggle_reset()),
            (Phase::FinalReset(toggle), event) => match toggle.next(event) {
                Progress::Pending(toggle) => Phase::FinalReset(toggle),
                Progress::Finished(Ok(())) => Phase::FinalSettle,
                Progress::Finished(Err(error)) => {
                    return Progress::Finished(Err(DssmError::Interface(error)));
                },
            },
            (Phase::FinalSettle, Event::Done) => {
                return Progress::Finished(Ok(()));
            },
            (phase, _) => phase,
        };
        Progress::Pending(DssmCommand { command, phase })
    }
}

} // verus!
