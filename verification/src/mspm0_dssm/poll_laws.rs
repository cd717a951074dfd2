//! What holds of every polling for a response, told by what is done on the
//! debug interface and what comes back.

use super::bus::{Action, Event};
use super::poll::{PollResponse, PollStage};
use super::response::{BootDiagnostic, DssmError, Rejection};
use super::{ApAddress, DpAddress, FullyQualifiedApAddress};
use crate::machine::{Machine, Progress};
use vstd::prelude::*;

verus! {

/// Every answer to its action is expected of a polling, and any other event
/// leaves it where it is.
pub proof fn law_expects_answers<E>(poll: PollResponse, event: Event<E>)
    ensures
        Machine::<Event<E>>::pending(poll) == poll.stage.call(),
        poll.expects(event) <==> poll.stage.call().answered_by(event),
        !poll.stage.call().answered_by(event) ==> poll.step(event) == Progress::<
            PollResponse,
            Result<(), DssmError<E>>,
        >::Pending(poll),
{
}

/// Status flags whose bit 0 is clear announce no response: the payload is not
/// read, whatever the other bits hold, but the time is checked. With bit 0 set
/// the payload is read.
pub proof fn law_flags_decide<E>(poll: PollResponse, rcr: u32)
    requires
        poll.stage.call() == (Action::ReadApRegister {
            ap: FullyQualifiedApAddress { dp: DpAddress::Default, ap: ApAddress::V1(2) },
            address: 0x0c,
        }),
    ensures
        poll.step(Event::<E>::Value(rcr)) matches Progress::Pending(next) && next.command
            == poll.command && next.stage.call() == if rcr & 1 != 0 {
            Action::ReadApRegister {
                ap: FullyQualifiedApAddress { dp: DpAddress::Default, ap: ApAddress::V1(2) },
                address: 0x08,
            }
        } else {
            Action::ReadClock
        },
{
}

/// The payload decides, together with the flags that announced it: `0x1_0003`
/// with an echo of the command's low byte is a success, and nothing else is.
pub proof fn law_payload_decides<E>(poll: PollResponse, rcr: u32, rxd: u32)
    requires
        poll.stage == (PollStage::Response { rcr }),
    ensures
        poll.step(Event::<E>::Value(rxd)) matches Progress::Finished(result) && if rxd
            != 0x1_0003 {
            result == Err::<(), DssmError<E>>(
                DssmError::Rejected(
                    Rejection::CommandFailed { command: poll.command, rxd, rcr },
                ),
            )
        } else if rcr & 0xfe != poll.command & 0xff {
            result == Err::<(), DssmError<E>>(
                DssmError::Rejected(Rejection::EchoMismatch { command: poll.command, rcr }),
            )
        } else {
            result is Ok
        },
{
    super::response::law_verdict(poll.command, rcr, rxd);
}

/// The polling is given up exactly when two seconds, to the nanosecond, are over
/// since it began.
pub proof fn law_deadline<E>(poll: PollResponse, since: u128, now: u128)
    requires
        poll.stage == (PollStage::Deadline { since }),
    ensures
        poll.step(Event::<E>::Clock(now)) matches Progress::Pending(next) && next.command
            == poll.command && next.stage == if now - since >= 2_000_000_000 {
            PollStage::Diagnose
        } else {
            PollStage::Pause { since }
        },
{
}

/// Where a polling stands, and what it has seen.
spec fn history<E>(
    command: u32,
    progress: Progress<PollResponse, Result<(), DssmError<E>>>,
    actions: Seq<Action>,
    events: Seq<Event<E>>,
) -> bool {
    let n = events.len() as int;
    &&& actions.len() == n
    &&& progress matches Progress::Pending(poll) ==> {
        &&& poll.command == command
        &&& match poll.stage {
            PollStage::Reconnect => n == 0,
            PollStage::StartClock => n == 1,
            PollStage::Status { since }
            | PollStage::ReconnectAgain { since }
            | PollStage::Deadline { since }
            | PollStage::Pause { since } => n >= 2 && events[1] == Event::<E>::Clock(since),
            PollStage::Response { rcr } => {
                &&& n >= 3
                &&& actions.last() == (Action::ReadApRegister {
                    ap: FullyQualifiedApAddress { dp: DpAddress::Default, ap: ApAddress::V1(2) },
                    address: 0x0c,
                })
                &&& events.last() == Event::<E>::Value(rcr)
            },
            PollStage::Diagnose | PollStage::Report(_) => n >= 3,
        }
    }
}

proof fn lemma_history<E>(command: u32, events: Seq<Event<E>>)
    requires
        crate::machine::is_run(PollResponse { command, stage: PollStage::Reconnect }, events),
    ensures
        history(
            command,
            crate::machine::after(PollResponse { command, stage: PollStage::Reconnect }, events),
            crate::machine::trace(PollResponse { command, stage: PollStage::Reconnect }, events),
            events,
        ),
    decreases events.len(),
{
    if events.len() > 0 {
        lemma_history(command, events.drop_last());
    }
}

/// What is done next in a polling, or with what it ends, for whatever came back.
///
/// The link is brought up and the clock read. Then the flags are read until
/// bit 0 is set or two seconds are over since that reading of the clock; before
/// each further reading of them the link is brought up again if the last one
/// failed, the clock is read, and 10 ms pass. When bit 0 is set the payload is
/// read, and decides together with the flags. When the time is up the boot
/// diagnostic is read, and told of if that worked.
pub proof fn law_poll<E>(command: u32, events: Seq<Event<E>>)
    requires
        crate::machine::is_run(PollResponse { command, stage: PollStage::Reconnect }, events),
    ensures
        ({
            let begin = PollResponse { command, stage: PollStage::Reconnect };
            let secap = FullyQualifiedApAddress { dp: DpAddress::Default, ap: ApAddress::V1(2) };
            let cfg_ap = FullyQualifiedApAddress { dp: DpAddress::Default, ap: ApAddress::V1(1) };
            let flags = Action::ReadApRegister { ap: secap, address: 0x0c };
            let payload = Action::ReadApRegister { ap: secap, address: 0x08 };
            let bootdiag = Action::ReadApRegister { ap: cfg_ap, address: 0x10 };
            let n = events.len() as int;
            let actions = crate::machine::trace(begin, events);
            let progress = crate::machine::after(begin, events);
            let next = progress->Pending_0.stage.call();
            let result = progress->Finished_0;
            let done = actions.last();
            let event = events.last();
            &&& actions.len() == n
            &&& n == 0 ==> progress is Pending && next == Action::Reinitialize
            &&& n == 1 ==> progress is Pending && next == Action::ReadClock
            &&& n == 2 ==> progress is Pending && next == flags && event is Clock
            &&& n > 2 ==> {
                ||| done == flags && progress is Pending && next == match event {
                    Event::Value(rcr) => if rcr & 1 != 0 {
                        payload
                    } else {
                        Action::ReadClock
                    },
                    _ => Action::Reinitialize,
                }
                ||| done == Action::Reinitialize && progress is Pending && next
                    == Action::ReadClock
                ||| done == Action::ReadClock && progress is Pending && next == if event->Clock_0
                    >= events[1]->Clock_0 + 2_000_000_000 {
                    bootdiag
                } else {
                    Action::Sleep(10)
                }
                ||| done == Action::Sleep(10) && progress is Pending && next == flags
                ||| done == payload && progress is Finished && actions[n - 2] == flags && events[n
                    - 2] is Value && result == match event {
                    Event::Value(rxd) => if rxd != 0x1_0003 {
                        Err(
                            DssmError::Rejected(
                                Rejection::CommandFailed {
                                    command,
                                    rxd,
                                    rcr: events[n - 2]->Value_0,
                                },
                            ),
                        )
                    } else if events[n - 2]->Value_0 & 0xfe != command & 0xff {
                        Err(
                            DssmError::Rejected(
                                Rejection::EchoMismatch { command, rcr: events[n - 2]->Value_0 },
                            ),
                        )
                    } else {
                        Ok(())
                    },
                    _ => Err(DssmError::Interface(event->Failed_0)),
                }
                ||| done == bootdiag && match event {
                    Event::Value(value) => progress is Pending && next == Action::ReportTimeout(
                        BootDiagnostic { value },
                    ),
                    _ => progress is Finished && result == Err::<(), DssmError<E>>(
                        DssmError::Timeout,
                    ),
                }
                ||| done is ReportTimeout && progress is Finished && result == Err::<
                    (),
                    DssmError<E>,
                >(DssmError::Timeout)
            }
        }),
{
    lemma_history(command, events);
    if events.len() > 0 {
        let begin = PollResponse { command, stage: PollStage::Reconnect };
        let earlier = events.drop_last();
        lemma_history(command, earlier);
        let poll = crate::machine::after(begin, earlier)->Pending_0;
        if let PollStage::Response { rcr } = poll.stage {
            super::response::law_echo(rcr);
        }
    }
}

} // verus!
