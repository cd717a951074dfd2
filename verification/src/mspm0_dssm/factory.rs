//! The factory reset of a device.

use super::bus;
use super::command::{dssm_command, DssmCommand, Phase};
use super::response::DssmError;
use super::{DpAddress, DSSM_CMD_FACTORY_RESET};
use crate::machine::{Machine, Progress};
use vstd::prelude::*;

verus! {

/// The name of the debug sequence to talk to the device with.
///
/// The MSPM0 sequence keeps the device out of DEEPSLEEP; a blank device parks
/// itself in STANDBY after a few seconds otherwise.
pub const DEBUG_SEQUENCE: &'static str = "MSPM0";

/// How a probe talks to its target.
#[derive(Clone, Copy, Debug, PartialEq, Eq)]
pub enum WireProtocol {
    /// Serial wire debug.
    Swd,
    /// JTAG.
    Jtag,
}

/// One thing to do with the probe, or with the debug interface made of it.
#[derive(Clone, Copy, Debug, PartialEq, Eq)]
pub enum Action {
    /// Select the protocol of the probe.
    SelectProtocol(WireProtocol),
    /// Attach the probe without a target.
    AttachToUnspecified,
    /// Turn the probe into a debug interface that runs the named debug
    /// sequence.
    IntoArmDebugInterface {
        /// The name of the sequence.
        sequence: &'static str,
    },
    /// Do something on the debug interface.
    Interface(bus::Action),
    /// Find out which debug port is selected.
    CurrentDebugPort,
    /// Select a debug port.
    SelectDebugPort(DpAddress),
    /// Turn the debug interface back into the probe.
    Close,
    /// Detach the probe.
    Detach,
}

/// How an action went. `E` is the error type of the probe and of the debug
/// interface.
#[derive(Debug, PartialEq, Eq)]
pub enum Event<E> {
    /// It was done, with nothing to tell.
    Done,
    /// It failed.
    Failed(E),
    /// How an action on the debug interface went.
    Interface(bus::Event<E>),
    /// The selected debug port, if any is.
    DebugPort(Option<DpAddress>),
}

impl Action {
    /// Whether `event` can be the event of this action.
    pub open spec fn answered_by<E>(self, event: Event<E>) -> bool {
        match self {
            Action::SelectProtocol(_)
            | Action::AttachToUnspecified
            | Action::IntoArmDebugInterface { .. }
            | Action::SelectDebugPort(_)
            | Action::Detach => event is Done || event is Failed,
            Action::Interface(action) => event matches Event::Interface(event)
                && action.answered_by(event),
            Action::CurrentDebugPort => event is DebugPort,
            Action::Close => event is Done,
        }
    }
}

/// Why a factory reset failed.
#[derive(Debug, PartialEq, Eq)]
pub enum FactoryResetError<E> {
    /// The probe could not be attached, or does not support ARM debugging.
    Probe(E),
    /// The DSSM command failed.
    Command(DssmError<E>),
}

/// Runs a DSSM factory reset against the device attached to a probe.
///
/// The probe is attached without a target: a locked MSPM0 has no MEM-AP, so no
/// session can be created. In the end the probe is detached and can be used
/// for a regular attach (which now succeeds because the device is unlocked and
/// blank).
///
/// Note that the factory reset erases the entire main *and* non-main flash.
#[derive(Debug, PartialEq, Eq)]
pub enum FactoryReset<E> {
    /// MSPM0 only supports SWD, and the attach does not select the protocol.
    SelectProtocol,
    /// The probe is attached.
    Attach,
    /// The debug interface is made.
    OpenInterface,
    /// The debug interface could not be made: the probe is detached.
    Abandon(E),
    /// The command is executed.
    Command(DssmCommand<E>),
    /// The command is over. The first access selected the debug port, if the
    /// command came that far.
    CheckDebugPort(Result<(), DssmError<E>>),
    /// It did not, and the interface can be closed cleanly only with the debug
    /// port selected.
    SelectDebugPort(Result<(), DssmError<E>>),
    /// The interface is closed.
    Close(Result<(), DssmError<E>>),
    /// The probe is detached.
    Detach(Result<(), DssmError<E>>),
}

impl<E> FactoryReset<E> {
    /// What happens in this stage.
    pub open spec fn call(self) -> Action {
        match self {
            FactoryReset::SelectProtocol => Action::SelectProtocol(WireProtocol::Swd),
            FactoryReset::Attach => Action::AttachToUnspecified,
            FactoryReset::OpenInterface => Action::IntoArmDebugInterface {
                sequence: DEBUG_SEQUENCE,
            },
            FactoryReset::Abandon(_) | FactoryReset::Detach(_) => Action::Detach,
            FactoryReset::Command(execution) => Action::Interface(execution.pending()),
            FactoryReset::CheckDebugPort(_) => Action::CurrentDebugPort,
            FactoryReset::SelectDebugPort(_) => Action::SelectDebugPort(DpAddress::Default),
            FactoryReset::Close(_) => Action::Close,
        }
    }
}

impl<E> Machine<Event<E>> for FactoryReset<E> {
    type Action = Action;

    type Outcome = Result<(), FactoryResetError<E>>;

    open spec fn pending(self) -> Action {
        self.call()
    }

    open spec fn expects(self, event: Event<E>) -> bool {
        self.call().answered_by(event)
    }

    open spec fn step(self, event: Event<E>) -> Progress<
        FactoryReset<E>,
        Result<(), FactoryResetError<E>>,
    > {
        if !self.expects(event) {
            Progress::Pending(self)
        } else {
            match self {
                FactoryReset::SelectProtocol => if event is Failed {
                    Progress::Finished(Err(FactoryResetError::Probe(event->Failed_0)))
                } else {
                    Progress::Pending(FactoryReset::Attach)
                },
                FactoryReset::Attach => if event is Failed {
                    Progress::Finished(Err(FactoryResetError::Probe(event->Failed_0)))
                } else {
                    Progress::Pending(FactoryReset::OpenInterface)
                },
                FactoryReset::OpenInterface => if event is Failed {
                    Progress::Pending(FactoryReset::Abandon(event->Failed_0))
                } else {
                    Progress::Pending(
                        FactoryReset::Command(
                            DssmCommand {
                                command: DSSM_CMD_FACTORY_RESET,
                                phase: Phase::WriteCommand,
                            },
                        ),
                    )
                },
                FactoryReset::Abandon(error) => Progress::Finished(
                    Err(FactoryResetError::Probe(error)),
                ),
                FactoryReset::Command(execution) => match execution.step(event->Interface_0) {
                    Progress::Pending(execution) => Progress::Pending(
                        FactoryReset::Command(execution),
                    ),
                    Progress::Finished(result) => Progress::Pending(
                        FactoryReset::CheckDebugPort(result),
                    ),
                },
                FactoryReset::CheckDebugPort(result) => if event->DebugPort_0 is None {
                    Progress::Pending(FactoryReset::SelectDebugPort(result))
                } else {
                    Progress::Pending(FactoryReset::Close(result))
                },
                FactoryReset::SelectDebugPort(result) => Progress::Pending(
                    FactoryReset::Close(result),
                ),
                FactoryReset::Close(result) => Progress::Pending(FactoryReset::Detach(result)),
                FactoryReset::Detach(result) => Progress::Finished(
                    match result {
                        Ok(()) => Ok(()),
                        Err(error) => Err(FactoryResetError::Command(error)),
                    },
                ),
            }
        }
    }
}

/// Begins a factory reset.
pub fn factory_reset<E>() -> (reset: FactoryReset<E>)
    ensures
        reset == FactoryReset::<E>::SelectProtocol,
{
    FactoryReset::SelectProtocol
}

impl<E> FactoryReset<E> {
    /// The action to perform now.
    pub fn action(&self) -> (action: Action)
        ensures
            action == self.call(),
            action == self.pending(),
    {
        match self {
            FactoryReset::SelectProtocol => Action::SelectProtocol(WireProtocol::Swd),
            FactoryReset::Attach => Action::AttachToUnspecified,
            FactoryReset::OpenInterface => Action::IntoArmDebugInterface {
                sequence: DEBUG_SEQUENCE,
            },
            FactoryReset::Abandon(_) => Action::Detach,
            FactoryReset::Command(execution) => Action::Interface(execution.action()),
            FactoryReset::CheckDebugPort(_) => Action::CurrentDebugPort,
            FactoryReset::SelectDebugPort(_) => Action::SelectDebugPort(DpAddress::Default),
            FactoryReset::Close(_) => Action::Close,
            FactoryReset::Detach(_) => Action::Detach,
        }
    }

    /// Goes on with the event of the action.
    pub fn next(self, event: Event<E>) -> (progress: Progress<
        FactoryReset<E>,
        Result<(), FactoryResetError<E>>,
    >)
        ensures
            progress == self.step(event),
    {
        let stage = match (self, event) {
            (FactoryReset::SelectProtocol, Event::Done) => FactoryReset::Attach,
            (FactoryReset::Attach, Event::Done) => FactoryReset::OpenInterface,
            (FactoryReset::SelectProtocol | FactoryReset::Attach, Event::Failed(error)) => {
                return Progress::Finished(Err(FactoryResetError::Probe(error)));
            },
            (FactoryReset::OpenInterface, Event::Done) => FactoryReset::Command(
                dssm_command(DSSM_CMD_FACTORY_RESET),
            ),
            (FactoryReset::OpenInterface, Event::Failed(error)) => FactoryReset::Abandon(error),
            (FactoryReset::Abandon(error), Event::Done | Event::Failed(_)) => {
                return Progress::Finished(Err(FactoryResetError::Probe(error)));
            },
            (FactoryReset::Command(execution), Event::Interface(event)) => {
                match execution.next(event) {
                    Progress::Pending(execution) => FactoryReset::Command(execution),
                    Progress::Finished(result) => FactoryReset::CheckDebugPort(result),
                }
            },
            (FactoryReset::CheckDebugPort(result), Event::DebugPort(port)) => match port {
                None => FactoryReset::SelectDebugPort(result),
                Some(_) => FactoryReset::Close(result),
            },
            (FactoryReset::SelectDebugPort(result), Event::Done | Event::Failed(_)) => {
                FactoryReset::Close(result)
            },
            (FactoryReset::Close(result), Event::Done) => FactoryReset::Detach(result),
            (FactoryReset::Detach(Ok(())), Event::Done | Event::Failed(_)) => {
                return Progress::Finished(Ok(()));
            },
            (FactoryReset::Detach(Err(error)), Event::Done | Event::Failed(_)) => {
                return Progress::Finished(Err(FactoryResetError::Command(error)));
            },
            (stage, _) => stage,
        };
        Progress::Pending(stage)
    }
}

} // verus!
