//! Waiting for the ROM's response to a DSSM command.

use super::bus::{Action, Event};
use super::response::{check_response, response_pending, BootDiagnostic, DssmError};
use super::{
    cfg_ap, secap, BOOTDIAG, RESPONSE_POLL_INTERVAL, RESPONSE_TIMEOUT, SECAP_RCR, SECAP_RXD,
};
use crate::machine::{Machine, Progress};
use vstd::prelude::*;

verus! {

/// [`RESPONSE_TIMEOUT`] in nanoseconds.
const RESPONSE_TIMEOUT_NANOS: u128 = 2_000_000_000;

/// Polls for the response to a DSSM command, re-establishing the SWD link as
/// needed, and validates the command echo.
#[derive(Clone, Copy, Debug, PartialEq, Eq)]
pub struct PollResponse {
    /// The command.
    pub command: u32,
    /// How far the polling is.
    pub stage: PollStage,
}

/// How far the polling is. `since` is the clock when it began.
#[derive(Clone, Copy, Debug, PartialEq, Eq)]
pub enum PollStage {
    /// The reset dropped the SWD connection: the debug port is brought back up.
    Reconnect,
    /// The clock is read for the first time.
    StartClock,
    /// The status flags are read.
    Status {
        /// The clock when the polling began.
        since: u128,
    },
    /// The link may still be coming back up after the reset.
    ReconnectAgain {
        /// The clock when the polling began.
        since: u128,
    },
    /// There is no response yet: is there time left?
    Deadline {
        /// The clock when the polling began.
        since: u128,
    },
    /// There is, and the next poll is due in a while.
    Pause {
        /// The clock when the polling began.
        since: u128,
    },
    /// A response is pending: it is fetched, which also acknowledges it.
    Response {
        /// The status flags that announced it.
        rcr: u32,
    },
    /// The time is up: the boot diagnostic is read.
    Diagnose,
    /// The time is up: the user is told of the boot diagnostic.
    Report(BootDiagnostic),
}

/// Whether the time that a response may take is over at `now`.
pub open spec fn timed_out(since: u128, now: u128) -> bool {
    now >= since + RESPONSE_TIMEOUT * 1_000_000
}

impl PollStage {
    /// What happens in this stage.
    pub open spec fn call(self) -> Action {
        match self {
            PollStage::Reconnect | PollStage::ReconnectAgain { .. } => Action::Reinitialize,
            PollStage::StartClock | PollStage::Deadline { .. } => Action::ReadClock,
            PollStage::Status { .. } => Action::mailbox_read(SECAP_RCR),
            PollStage::Pause { .. } => Action::Sleep(RESPONSE_POLL_INTERVAL),
            PollStage::Response { .. } => Action::mailbox_read(SECAP_RXD),
            PollStage::Diagnose => Action::bootdiag_read(),
            PollStage::Report(diagnostic) => Action::ReportTimeout(diagnostic),
        }
    }
}

impl<E> Machine<Event<E>> for PollResponse {
    type Action = Action;

    type Outcome = Result<(), DssmError<E>>;

    open spec fn pending(self) -> Action {
        self.stage.call()
    }

    open spec fn expects(self, event: Event<E>) -> bool {
        self.stage.call().answered_by(event)
    }

    open spec fn step(self, event: Event<E>) -> Progress<PollResponse, Result<(), DssmError<E>>> {
        let go = |stage: PollStage|
            Progress::<PollResponse, Result<(), DssmError<E>>>::Pending(
                PollResponse { command: self.command, stage },
            );
        if !self.expects(event) {
            Progress::Pending(self)
        } else {
            match self.stage {
                // Failing to reconnect is no reason to stop: the polls go on
                // trying.
                PollStage::Reconnect => go(PollStage::StartClock),
                PollStage::StartClock => go(PollStage::Status { since: event->Clock_0 }),
                PollStage::Status { since } => match event {
                    Event::Value(rcr) if super::response::rx_valid(rcr) => go(
                        PollStage::Response { rcr },
                    ),
                    Event::Value(_) => go(PollStage::Deadline { since }),
                    _ => go(PollStage::ReconnectAgain { since }),
                },
                PollStage::ReconnectAgain { since } => go(PollStage::Deadline { since }),
                PollStage::Deadline { since } => if timed_out(since, event->Clock_0) {
                    go(PollStage::Diagnose)
                } else {
                    go(PollStage::Pause { since })
                },
                PollStage::Pause { since } => go(PollStage::Status { since }),
                PollStage::Response { rcr } => Progress::Finished(
                    match event {
                        Event::Value(rxd) => match super::response::verdict(
                            self.command,
                            rcr,
                            rxd,
                        ) {
                            Ok(()) => Ok(()),
                            Err(rejection) => Err(DssmError::Rejected(rejection)),
                        },
                        _ => Err(DssmError::Interface(event->Failed_0)),
                    },
                ),
                PollStage::Diagnose => match event {
                    Event::Value(value) => go(PollStage::Report(BootDiagnostic { value })),
                    _ => Progress::Finished(Err(DssmError::Timeout)),
                },
                PollStage::Report(_) => Progress::Finished(Err(DssmError::Timeout)),
            }
        }
    }
}

/// Begins to poll for the response to `command`.
pub fn poll_response(command: u32) -> (poll: PollResponse)
    ensures
        poll == (PollResponse { command, stage: PollStage::Reconnect }),
{
    PollResponse { command, stage: PollStage::Reconnect }
}

impl PollResponse {
    /// The action to perform now.
    pub fn action(&self) -> (action: Action)
        ensures
            action == self.stage.call(),
            action == Machine::<Event<()>>::pending(*self),
    {
        match self.stage {
            PollStage::Reconnect => Action::Reinitialize,
            PollStage::ReconnectAgain { .. } => Action::Reinitialize,
            PollStage::StartClock => Action::ReadClock,
            PollStage::Deadline { .. } => Action::ReadClock,
            PollStage::Status { .. } => Action::ReadApRegister { ap: secap(), address: SECAP_RCR },
            PollStage::Pause { .. } => Action::Sleep(RESPONSE_POLL_INTERVAL),
            PollStage::Response { .. } => Action::ReadApRegister {
                ap: secap(),
                address: SECAP_RXD,
            },
            PollStage::Diagnose => Action::ReadApRegister { ap: cfg_ap(), address: BOOTDIAG },
            PollStage::Report(diagnostic) => Action::ReportTimeout(diagnostic),
        }
    }

    /// Goes on in another stage.
    fn go<E>(self, stage: PollStage) -> (progress: Progress<
        PollResponse,
        Result<(), DssmError<E>>,
    >)
        ensures
            progress == Progress::<PollResponse, Result<(), DssmError<E>>>::Pending(
                PollResponse { command: self.command, stage },
            ),
    {
        Progress::Pending(PollResponse { command: self.command, stage })
    }

    /// Goes on with the event of the action.
    pub fn next<E>(self, event: Event<E>) -> (progress: Progress<
        PollResponse,
        Result<(), DssmError<E>>,
    >)
        ensures
            progress == self.step(event),
    {
        match (self.stage, event) {
            (PollStage::Reconnect, Event::Done | Event::Failed(_)) => self.go(
                PollStage::StartClock,
            ),
            (PollStage::StartClock, Event::Clock(since)) => self.go(PollStage::Status { since }),
            (PollStage::Status { since }, Event::Value(rcr)) => {
                if response_pending(rcr) {
                    self.go(PollStage::Response { rcr })
                } else {
                    self.go(PollStage::Deadline { since })
                }
            },
            (PollStage::Status { since }, Event::Failed(_)) => self.go(
                PollStage::ReconnectAgain { since },
            ),
            (PollStage::ReconnectAgain { since }, Event::Done | Event::Failed(_)) => self.go(
                PollStage::Deadline { since },
            ),
            (PollStage::Deadline { since }, Event::Clock(now)) => {
                if now.saturating_sub(since) >= RESPONSE_TIMEOUT_NANOS {
                    self.go(PollStage::Diagnose)
                } else {
                    self.go(PollStage::Pause { since })
                }
            },
            (PollStage::Pause { since }, Event::Done) => self.go(PollStage::Status { since }),
            (PollStage::Response { rcr }, Event::Value(rxd)) => {
                match check_response(self.command, rcr, rxd) {
                    Ok(()) => Progress::Finished(Ok(())),
                    Err(rejection) => Progress::Finished(Err(DssmError::Rejected(rejection))),
                }
            },
            (PollStage::Response { .. }, Event::Failed(error)) => Progress::Finished(
                Err(DssmError::Interface(error)),
            ),
            (PollStage::Diagnose, Event::Value(value)) => self.go(
                PollStage::Report(BootDiagnostic { value }),
            ),
            (PollStage::Diagnose, Event::Failed(_)) => Progress::Finished(Err(DssmError::Timeout)),
            (PollStage::Report(_), Event::Done) => Progress::Finished(Err(DssmError::Timeout)),
            _ => Progress::Pending(self),
        }
    }
}

} // verus!
