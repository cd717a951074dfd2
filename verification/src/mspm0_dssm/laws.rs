//! What holds of every execution of a DSSM command.

use super::bus::{Action, Event};
use super::command::{DssmCommand, Phase};
use super::poll::PollStage;
use super::reset::ToggleReset;
use super::response::{BootDiagnostic, DssmError, Rejection};
use super::{ApAddress, DpAddress, FullyQualifiedApAddress};
use crate::machine::{Machine, Progress};
use vstd::prelude::*;

verus! {

/// The execution of `command` before its first action.
pub open spec fn begin<E>(command: u32) -> DssmCommand<E> {
    DssmCommand { command, phase: Phase::WriteCommand }
}

/// The actions up to the first poll, in order.
pub open spec fn opening(command: u32) -> Seq<Action> {
    seq![
        Action::WriteApRegister {
            ap: FullyQualifiedApAddress { dp: DpAddress::Default, ap: ApAddress::V1(2) },
            address: 0x04,
            value: command,
        },
        Action::WriteApRegister {
            ap: FullyQualifiedApAddress { dp: DpAddress::Default, ap: ApAddress::V1(2) },
            address: 0x00,
            value: 0,
        },
        Action::ReadApRegister {
            ap: FullyQualifiedApAddress { dp: DpAddress::Default, ap: ApAddress::V1(2) },
            address: 0x08,
        },
        Action::ReadApRegister {
            ap: FullyQualifiedApAddress { dp: DpAddress::Default, ap: ApAddress::V1(2) },
            address: 0x0c,
        },
        Action::Sleep(1000),
        Action::SwjPins { output: 0, select: 0x80, wait: 0 },
        Action::Sleep(100),
        Action::SwjPins { output: 0x80, select: 0x80, wait: 0 },
        Action::Sleep(100),
        Action::SuppressRecovery,
        Action::Reinitialize,
        Action::ReadClock,
    ]
}

/// The actions after a response was acknowledged and the recovery resumed, in
/// order.
pub open spec fn closing() -> Seq<Action> {
    seq![
        Action::Sleep(1000),
        Action::SwjPins { output: 0, select: 0x80, wait: 0 },
        Action::Sleep(100),
        Action::SwjPins { output: 0x80, select: 0x80, wait: 0 },
        Action::Sleep(100),
        Action::Sleep(1000),
    ]
}

/// The actions that polling is made of.
pub open spec fn polling(action: Action) -> bool {
    ||| action == (Action::ReadApRegister {
        ap: FullyQualifiedApAddress { dp: DpAddress::Default, ap: ApAddress::V1(2) },
        address: 0x0c,
    })
    ||| action == (Action::ReadApRegister {
        ap: FullyQualifiedApAddress { dp: DpAddress::Default, ap: ApAddress::V1(2) },
        address: 0x08,
    })
    ||| action == (Action::ReadApRegister {
        ap: FullyQualifiedApAddress { dp: DpAddress::Default, ap: ApAddress::V1(1) },
        address: 0x10,
    })
    ||| action == Action::Reinitialize
    ||| action == Action::ReadClock
    ||| action == Action::Sleep(10)
    ||| action is ReportTimeout
}

/// How many of the opening actions are done, while they are.
pub open spec fn opening_position<E>(phase: Phase<E>) -> Option<int> {
    match phase {
        Phase::WriteCommand => Some(0),
        Phase::WritePayload => Some(1),
        Phase::ClearData => Some(2),
        Phase::ClearStatus => Some(3),
        Phase::Latch => Some(4),
        Phase::Reset(ToggleReset::Assert) => Some(5),
        Phase::Reset(ToggleReset::Hold) => Some(6),
        Phase::Reset(ToggleReset::Release) => Some(7),
        Phase::Reset(ToggleReset::Settle) => Some(8),
        Phase::Suppress => Some(9),
        Phase::Poll(poll) => match poll.stage {
            PollStage::Reconnect => Some(10),
            PollStage::StartClock => Some(11),
            _ => None,
        },
        _ => None,
    }
}

/// How many of the closing actions are done, while they are.
pub open spec fn closing_position<E>(phase: Phase<E>) -> Option<int> {
    match phase {
        Phase::Finish => Some(0),
        Phase::FinalReset(ToggleReset::Assert) => Some(1),
        Phase::FinalReset(ToggleReset::Hold) => Some(2),
        Phase::FinalReset(ToggleReset::Release) => Some(3),
        Phase::FinalReset(ToggleReset::Settle) => Some(4),
        Phase::FinalSettle => Some(5),
        _ => None,
    }
}

/// The first `n` actions are the opening ones, or those of them that fit.
pub open spec fn opens(command: u32, actions: Seq<Action>, n: int) -> bool {
    &&& n <= actions.len()
    &&& forall|i: int| 0 <= i < n && i < 12 ==> #[trigger] actions[i] == opening(command)[i]
}

/// The opening is done, and from there up to `n` there is polling only.
pub open spec fn polled<E>(command: u32, actions: Seq<Action>, events: Seq<Event<E>>, n: int) -> bool {
    &&& 12 <= n <= actions.len()
    &&& opens(command, actions, 12)
    &&& events[11] is Clock
    &&& forall|i: int| 12 <= i < n ==> polling(#[trigger] actions[i])
}

/// The two actions before `n` found the response pending and fetched it; these
/// are the flags and the payload that came.
pub open spec fn fetched<E>(
    actions: Seq<Action>,
    events: Seq<Event<E>>,
    n: int,
    rcr: u32,
    rxd: u32,
) -> bool {
    &&& 14 <= n
    &&& actions[n - 2] == (Action::ReadApRegister {
        ap: FullyQualifiedApAddress { dp: DpAddress::Default, ap: ApAddress::V1(2) },
        address: 0x0c,
    })
    &&& events[n - 2] == Event::<E>::Value(rcr)
    &&& super::response::rx_valid(rcr)
    &&& actions[n - 1] == (Action::ReadApRegister {
        ap: FullyQualifiedApAddress { dp: DpAddress::Default, ap: ApAddress::V1(2) },
        address: 0x08,
    })
    &&& events[n - 1] == Event::<E>::Value(rxd)
}

/// The clock read at `n` was past the time that a response may take.
pub open spec fn expired<E>(actions: Seq<Action>, events: Seq<Event<E>>, n: int) -> bool {
    &&& 12 <= n
    &&& actions[n] == Action::ReadClock
    &&& events[n] is Clock
    &&& super::poll::timed_out(events[11]->Clock_0, events[n]->Clock_0)
}

/// What the polling that ended before `n` shows of its result.
pub open spec fn polled_to<E>(
    command: u32,
    actions: Seq<Action>,
    events: Seq<Event<E>>,
    n: int,
    result: Result<(), DssmError<E>>,
) -> bool {
    &&& polled(command, actions, events, n)
    &&& match result {
        Ok(()) => exists|rcr: u32, rxd: u32| #[trigger]
            fetched(actions, events, n, rcr, rxd) && super::response::acknowledges(
                command,
                rcr,
                rxd,
            ),
        Err(DssmError::Rejected(rejection)) => exists|rcr: u32, rxd: u32| #[trigger]
            fetched(actions, events, n, rcr, rxd) && super::response::verdict(command, rcr, rxd)
                == Err::<(), Rejection>(rejection),
        Err(DssmError::Interface(error)) => {
            &&& 14 <= n
            &&& actions[n - 2] == (Action::ReadApRegister {
                ap: FullyQualifiedApAddress { dp: DpAddress::Default, ap: ApAddress::V1(2) },
                address: 0x0c,
            })
            &&& events[n - 2] matches Event::Value(rcr) && super::response::rx_valid(rcr)
            &&& actions[n - 1] == (Action::ReadApRegister {
                ap: FullyQualifiedApAddress { dp: DpAddress::Default, ap: ApAddress::V1(2) },
                address: 0x08,
            })
            &&& events[n - 1] == Event::Failed(error)
        },
        Err(DssmError::Timeout) => {
            ||| {
                &&& expired(actions, events, n - 2)
                &&& actions[n - 1] == (Action::ReadApRegister {
                    ap: FullyQualifiedApAddress { dp: DpAddress::Default, ap: ApAddress::V1(1) },
                    address: 0x10,
                })
                &&& events[n - 1] is Failed
            }
            ||| {
                &&& expired(actions, events, n - 3)
                &&& actions[n - 2] == (Action::ReadApRegister {
                    ap: FullyQualifiedApAddress { dp: DpAddress::Default, ap: ApAddress::V1(1) },
                    address: 0x10,
                })
                &&& events[n - 2] is Value
                &&& actions[n - 1] == Action::ReportTimeout(
                    super::response::BootDiagnostic { value: events[n - 2]->Value_0 },
                )
            }
        },
    }
}

/// The last `k` actions are closing ones, after an acknowledged response.
pub open spec fn closes<E>(
    command: u32,
    actions: Seq<Action>,
    events: Seq<Event<E>>,
    k: int,
) -> bool {
    let n = actions.len() - k - 1;
    &&& polled_to(command, actions, events, n, Ok(()))
    &&& actions[n] == Action::ResumeRecovery
    &&& forall|i: int| 0 <= i < k ==> actions[n + 1 + i] == #[trigger] closing()[i]
}

/// What the actions and events so far look like, wherever the execution stands.
spec fn history<E>(
    command: u32,
    progress: Progress<DssmCommand<E>, Result<(), DssmError<E>>>,
    actions: Seq<Action>,
    events: Seq<Event<E>>,
) -> bool {
    &&& actions.len() == events.len()
    &&& match progress {
        Progress::Pending(m) => {
            &&& m.command == command
            &&& m.phase matches Phase::Poll(poll) ==> poll.command == command
            &&& opening_position(m.phase) matches Some(k) ==> {
                &&& actions.len() == k
                &&& opens(command, actions, k)
            }
            &&& closing_position(m.phase) matches Some(k) ==> closes(command, actions, events, k)
            &&& match m.phase {
                Phase::Poll(poll) => {
                    let n = actions.len() as int;
                    match poll.stage {
                        PollStage::Reconnect | PollStage::StartClock => true,
                        PollStage::Status { since }
                        | PollStage::ReconnectAgain { since }
                        | PollStage::Deadline { since }
                        | PollStage::Pause { since } => {
                            &&& polled(command, actions, events, n)
                            &&& events[11] == Event::<E>::Clock(since)
                        },
                        PollStage::Response { rcr } => {
                            &&& polled(command, actions, events, n)
                            &&& 13 <= n
                            &&& actions[n - 1] == (Action::ReadApRegister {
                                ap: FullyQualifiedApAddress { dp: DpAddress::Default, ap: ApAddress::V1(2) },
                                address: 0x0c,
                            })
                            &&& events[n - 1] == Event::<E>::Value(rcr)
                            &&& super::response::rx_valid(rcr)
                        },
                        PollStage::Diagnose => {
                            &&& polled(command, actions, events, n)
                            &&& expired(actions, events, n - 1)
                        },
                        PollStage::Report(diagnostic) => {
                            &&& polled(command, actions, events, n)
                            &&& expired(actions, events, n - 2)
                            &&& actions[n - 1] == (Action::ReadApRegister {
                                ap: FullyQualifiedApAddress { dp: DpAddress::Default, ap: ApAddress::V1(1) },
                                address: 0x10,
                            })
                            &&& events[n - 1] == Event::<E>::Value(diagnostic.value)
                        },
                    }
                },
                Phase::Resume(result) => polled_to(
                    command,
                    actions,
                    events,
                    actions.len() as int,
                    result,
                ),
                _ => true,
            }
        },
        Progress::Finished(Ok(())) => closes(command, actions, events, 6),
        Progress::Finished(Err(error)) => failed(command, actions, events, error),
    }
}

/// How an execution fails: an essential action failed, or the polling did.
pub open spec fn failed<E>(
    command: u32,
    actions: Seq<Action>,
    events: Seq<Event<E>>,
    error: DssmError<E>,
) -> bool {
    let n = actions.len() - 1;
    ||| {
        &&& 0 <= n < 12
        &&& opens(command, actions, n + 1)
        &&& actions[n] is WriteApRegister || actions[n] is SwjPins
        &&& error is Interface
        &&& events[n] == Event::Failed(error->Interface_0)
    }
    ||| {
        &&& actions[n] == Action::ResumeRecovery
        &&& polled_to(command, actions, events, n, Err(error))
    }
    ||| {
        &&& actions[n] is SwjPins
        &&& error is Interface
        &&& events[n] == Event::Failed(error->Interface_0)
        &&& exists|k: int| 0 <= k < 6 && #[trigger] closes(command, actions, events, k)
    }
}

proof fn lemma_history<E>(command: u32, events: Seq<Event<E>>)
    requires
        crate::machine::is_run(begin::<E>(command), events),
    ensures
        history(
            command,
            crate::machine::after(begin::<E>(command), events),
            crate::machine::trace(begin::<E>(command), events),
            events,
        ),
    decreases events.len(),
{
    if events.len() > 0 {
        let earlier = events.drop_last();
        lemma_history(command, earlier);
        let before = crate::machine::after(begin::<E>(command), earlier);
        let actions = crate::machine::trace(begin::<E>(command), earlier);
        lemma_history_step(command, before->Pending_0, actions, earlier, events.last());
        assert(events =~= earlier.push(events.last()));
    }
}

proof fn lemma_polled_push<E>(
    command: u32,
    actions: Seq<Action>,
    events: Seq<Event<E>>,
    n: int,
    action: Action,
    event: Event<E>,
)
    requires
        actions.len() == events.len(),
        polled(command, actions, events, n),
    ensures
        polled(command, actions.push(action), events.push(event), n),
        n == actions.len() && polling(action) ==> polled(
            command,
            actions.push(action),
            events.push(event),
            n + 1,
        ),
{
    let longer = actions.push(action);
    assert forall|i: int| 0 <= i < 12 implies #[trigger] longer[i] == opening(command)[i] by {
        assert(longer[i] == actions[i]);
    }
    assert forall|i: int| 12 <= i < n implies polling(#[trigger] longer[i]) by {
        assert(longer[i] == actions[i]);
    }
}

proof fn lemma_polled_to_push<E>(
    command: u32,
    actions: Seq<Action>,
    events: Seq<Event<E>>,
    n: int,
    result: Result<(), DssmError<E>>,
    action: Action,
    event: Event<E>,
)
    requires
        actions.len() == events.len(),
        polled_to(command, actions, events, n, result),
    ensures
        polled_to(command, actions.push(action), events.push(event), n, result),
{
    lemma_polled_push(command, actions, events, n, action, event);
    assert forall|rcr: u32, rxd: u32| #[trigger]
        fetched(actions, events, n, rcr, rxd) implies fetched(
        actions.push(action),
        events.push(event),
        n,
        rcr,
        rxd,
    ) by {}
}

proof fn lemma_closes_push<E>(
    command: u32,
    actions: Seq<Action>,
    events: Seq<Event<E>>,
    k: int,
    event: Event<E>,
)
    requires
        actions.len() == events.len(),
        0 <= k < 6,
        closes(command, actions, events, k),
    ensures
        closes(command, actions.push(closing()[k]), events.push(event), k + 1),
{
    let n = actions.len() - k - 1;
    let longer = actions.push(closing()[k]);
    lemma_polled_to_push(command, actions, events, n, Ok(()), closing()[k], event);
    assert forall|i: int| 0 <= i < k + 1 implies longer[n + 1 + i] == #[trigger] closing()[i] by {
        if i < k {
            assert(actions[n + 1 + i] == closing()[i]);
        }
    }
}

proof fn lemma_opens_push(command: u32, actions: Seq<Action>, k: int)
    requires
        actions.len() == k,
        0 <= k < 12,
        opens(command, actions, k),
    ensures
        opens(command, actions.push(opening(command)[k]), k + 1),
{
}

proof fn lemma_history_step<E>(
    command: u32,
    m: DssmCommand<E>,
    actions: Seq<Action>,
    events: Seq<Event<E>>,
    event: Event<E>,
)
    requires
        history(command, Progress::Pending(m), actions, events),
        m.expects(event),
    ensures
        history(command, m.step(event), actions.push(m.pending()), events.push(event)),
{
    let action = m.pending();
    let n = actions.len() as int;
    if let Some(k) = opening_position(m.phase) {
        assert(action == opening(command)[k]);
        lemma_opens_push(command, actions, k);
    } else if let Some(k) = closing_position(m.phase) {
        assert(action == closing()[k]);
        lemma_closes_push(command, actions, events, k, event);
    } else if let Phase::Poll(poll) = m.phase {
        lemma_polled_push(command, actions, events, n, action, event);
        if let PollStage::Response { rcr } = poll.stage {
            if let Event::Value(rxd) = event {
                assert(fetched(actions.push(action), events.push(event), n + 1, rcr, rxd));
            }
        }
    } else if let Phase::Resume(result) = m.phase {
        lemma_polled_to_push(command, actions, events, n, result, action, event);
    }
}

/// Every execution begins the same way: the command goes into the mailbox, a
/// stale response is cleared, nRST is toggled once, and only after that the
/// recovery is suppressed and the link brought back up.
pub proof fn law_opening<E>(command: u32, events: Seq<Event<E>>)
    requires
        crate::machine::is_run(begin::<E>(command), events),
    ensures
        crate::machine::trace(begin::<E>(command), events).len() == events.len(),
        opens(
            command,
            crate::machine::trace(begin::<E>(command), events),
            events.len() as int,
        ),
{
    lemma_history(command, events);
}

/// An execution that succeeds found a response pending, fetched it, took it as
/// the acknowledgement of the command, resumed the recovery, and then toggled
/// nRST once more.
pub proof fn law_success<E>(command: u32, events: Seq<Event<E>>)
    requires
        crate::machine::is_run(begin::<E>(command), events),
        crate::machine::after(begin::<E>(command), events) == Progress::<
            DssmCommand<E>,
            Result<(), DssmError<E>>,
        >::Finished(Ok(())),
    ensures
        closes(command, crate::machine::trace(begin::<E>(command), events), events, 6),
{
    lemma_history(command, events);
}

/// An execution that fails does so for one of these reasons, and reports it:
/// the mailbox could not be written or nRST not be driven, the response could
/// not be fetched, it did not acknowledge the command, or it did not come in
/// time.
pub proof fn law_failure<E>(command: u32, events: Seq<Event<E>>, error: DssmError<E>)
    requires
        crate::machine::is_run(begin::<E>(command), events),
        crate::machine::after(begin::<E>(command), events) == Progress::<
            DssmCommand<E>,
            Result<(), DssmError<E>>,
        >::Finished(Err(error)),
    ensures
        failed(command, crate::machine::trace(begin::<E>(command), events), events, error),
{
    lemma_history(command, events);
}

/// Nothing is ever written to the device but the command and its empty
/// payload, once each.
pub proof fn law_writes<E>(command: u32, events: Seq<Event<E>>, i: int)
    requires
        crate::machine::is_run(begin::<E>(command), events),
        0 <= i < events.len(),
        crate::machine::trace(begin::<E>(command), events)[i] is WriteApRegister,
    ensures
        i < 2,
        crate::machine::trace(begin::<E>(command), events)[i] == opening(command)[i],
{
    lemma_history(command, events);
    let actions = crate::machine::trace(begin::<E>(command), events);
    let progress = crate::machine::after(begin::<E>(command), events);
    if i >= 12 {
        lemma_tail(command, progress, actions, events, i);
    }
}

/// After the opening there is polling, the end of the polling, and closing.
proof fn lemma_tail<E>(
    command: u32,
    progress: Progress<DssmCommand<E>, Result<(), DssmError<E>>>,
    actions: Seq<Action>,
    events: Seq<Event<E>>,
    i: int,
)
    requires
        history(command, progress, actions, events),
        12 <= i < actions.len(),
    ensures
        polling(actions[i]) || actions[i] == Action::ResumeRecovery || closing().contains(
            actions[i],
        ),
{
    match progress {
        Progress::Pending(m) => {
            if let Some(k) = closing_position(m.phase) {
                lemma_closing_tail(command, actions, events, k, i);
            }
        },
        Progress::Finished(Ok(())) => {
            lemma_closing_tail(command, actions, events, 6, i);
        },
        Progress::Finished(Err(error)) => {
            let n = actions.len() - 1;
            if actions[n] is SwjPins {
                let k = choose|k: int|
                    0 <= k < 6 && #[trigger] closes(command, actions, events, k);
                lemma_closing_tail(command, actions, events, k, i);
            }
        },
    }
}

proof fn lemma_closing_tail<E>(
    command: u32,
    actions: Seq<Action>,
    events: Seq<Event<E>>,
    k: int,
    i: int,
)
    requires
        0 <= k <= 6,
        closes(command, actions, events, k),
        12 <= i < actions.len(),
    ensures
        polling(actions[i]) || actions[i] == Action::ResumeRecovery || closing().contains(
            actions[i],
        ),
{
    let n = actions.len() - k - 1;
    if i > n {
        assert(actions[n + 1 + (i - n - 1)] == closing()[i - n - 1]);
    }
}

/// Whether the recovery is suppressed after these actions.
pub open spec fn suppressed(actions: Seq<Action>) -> bool
    decreases actions.len(),
{
    if actions.len() == 0 {
        false
    } else {
        match actions.last() {
            Action::SuppressRecovery => true,
            Action::ResumeRecovery => false,
            _ => suppressed(actions.drop_last()),
        }
    }
}

/// The recovery is suppressed exactly while the execution polls for the
/// response; when it is over, with whatever outcome, the recovery is not left
/// suppressed.
pub proof fn law_recovery<E>(command: u32, events: Seq<Event<E>>)
    requires
        crate::machine::is_run(begin::<E>(command), events),
    ensures
        match crate::machine::after(begin::<E>(command), events) {
            Progress::Pending(m) => suppressed(
                crate::machine::trace(begin::<E>(command), events),
            ) == (m.phase is Poll || m.phase is Resume),
            Progress::Finished(_) => !suppressed(
                crate::machine::trace(begin::<E>(command), events),
            ),
        },
    decreases events.len(),
{
    if events.len() > 0 {
        let earlier = events.drop_last();
        law_recovery(command, earlier);
        let m = crate::machine::after(begin::<E>(command), earlier)->Pending_0;
        let actions = crate::machine::trace(begin::<E>(command), earlier);
        assert(actions.push(m.pending()).drop_last() =~= actions);
    }
}

/// Whether nRST is low after these actions went as the events tell.
pub open spec fn held_in_reset<E>(actions: Seq<Action>, events: Seq<Event<E>>) -> bool
    recommends
        actions.len() == events.len(),
    decreases actions.len(),
{
    if actions.len() == 0 {
        false
    } else if actions.last() == (Action::SwjPins { output: 0, select: 0x80, wait: 0 }) && events.last() is Done {
        true
    } else if actions.last() == (Action::SwjPins { output: 0x80, select: 0x80, wait: 0 }) && events.last() is Done {
        false
    } else {
        held_in_reset(actions.drop_last(), events.drop_last())
    }
}

/// The device is never left in reset, unless the probe failed to release nRST:
/// that is then the last thing that was tried, and its error is reported.
pub proof fn law_reset_released<E>(command: u32, events: Seq<Event<E>>)
    requires
        crate::machine::is_run(begin::<E>(command), events),
    ensures
        match crate::machine::after(begin::<E>(command), events) {
            Progress::Pending(m) => held_in_reset(
                crate::machine::trace(begin::<E>(command), events),
                events,
            ) == (m.phase == Phase::<E>::Reset(ToggleReset::Hold) || m.phase == Phase::<E>::Reset(
                ToggleReset::Release,
            ) || m.phase == Phase::<E>::FinalReset(ToggleReset::Hold) || m.phase == Phase::<
                E,
            >::FinalReset(ToggleReset::Release)),
            Progress::Finished(result) => held_in_reset(
                crate::machine::trace(begin::<E>(command), events),
                events,
            ) ==> {
                &&& crate::machine::trace(begin::<E>(command), events).last()
                    == (Action::SwjPins { output: 0x80, select: 0x80, wait: 0 })
                &&& events.last() is Failed
                &&& result == Err::<(), DssmError<E>>(
                    DssmError::Interface(events.last()->Failed_0),
                )
            },
        },
    decreases events.len(),
{
    if events.len() > 0 {
        let earlier = events.drop_last();
        law_reset_released(command, earlier);
        let m = crate::machine::after(begin::<E>(command), earlier)->Pending_0;
        let actions = crate::machine::trace(begin::<E>(command), earlier);
        assert(actions.push(m.pending()).drop_last() =~= actions);
            }
}

/// Failing to clear a stale response, to reconnect, or to read the flags or the
/// boot diagnostic never ends the execution. Only a failure to write, to drive
/// nRST or to fetch the response is reported.
pub proof fn law_tolerance<E>(m: DssmCommand<E>, error: E)
    requires
        m.expects(Event::Failed(error)),
    ensures
        m.step(Event::Failed(error)) is Finished <==> m.pending() is WriteApRegister
            || m.pending() is SwjPins,
        m.step(Event::Failed(error)) matches Progress::Pending(next) && next.phase
            == Phase::<E>::Resume(Err(DssmError::Interface(error))) ==> m.pending()
            == (Action::ReadApRegister {
                ap: FullyQualifiedApAddress { dp: DpAddress::Default, ap: ApAddress::V1(2) },
                address: 0x08,
            }),
{
}

/// Every answer to its action is expected of an execution, and any other event
/// leaves it where it is.
pub proof fn law_expects_answers<E>(m: DssmCommand<E>, event: Event<E>)
    ensures
        m.expects(event) <==> m.pending().answered_by(event),
        !m.pending().answered_by(event) ==> m.step(event) == Progress::<
            DssmCommand<E>,
            Result<(), DssmError<E>>,
        >::Pending(m),
{
}

/// The first thing that is done for a command is to write that very command to
/// register `0x04` of the access port 2 on the default debug port.
pub proof fn law_command_written<E>(command: u32)
    ensures
        begin::<E>(command).pending() == (Action::WriteApRegister {
            ap: FullyQualifiedApAddress { dp: DpAddress::Default, ap: ApAddress::V1(2) },
            address: 0x04,
            value: command,
        }),
{
}

/// What is done up to the first reading of the flags: these actions, in this
/// order, for every command. It ends before that exactly if the command or its
/// payload could not be written, or nRST could not be driven, with that error.
pub proof fn law_opening_steps<E>(command: u32, events: Seq<Event<E>>)
    requires
        crate::machine::is_run(begin::<E>(command), events),
        events.len() <= 12,
    ensures
        ({
            let secap = FullyQualifiedApAddress { dp: DpAddress::Default, ap: ApAddress::V1(2) };
            let wire = seq![
                Action::WriteApRegister { ap: secap, address: 0x04, value: command },
                Action::WriteApRegister { ap: secap, address: 0x00, value: 0 },
                Action::ReadApRegister { ap: secap, address: 0x08 },
                Action::ReadApRegister { ap: secap, address: 0x0c },
                Action::Sleep(1000),
                Action::SwjPins { output: 0, select: 0x80, wait: 0 },
                Action::Sleep(100),
                Action::SwjPins { output: 0x80, select: 0x80, wait: 0 },
                Action::Sleep(100),
                Action::SuppressRecovery,
                Action::Reinitialize,
                Action::ReadClock,
                Action::ReadApRegister { ap: secap, address: 0x0c },
            ];
            let n = events.len() as int;
            let broken = (n == 1 || n == 2 || n == 6 || n == 8) && events.last() is Failed;
            &&& crate::machine::trace(begin::<E>(command), events) == wire.take(n)
            &&& match crate::machine::after(begin::<E>(command), events) {
                Progress::Pending(m) => !broken && m.pending() == wire[n],
                Progress::Finished(result) => broken && result == Err::<(), DssmError<E>>(
                    DssmError::Interface(events.last()->Failed_0),
                ),
            }
        }),
{
    let actions = crate::machine::trace(begin::<E>(command), events);
    lemma_history(command, events);
    law_opening(command, events);
    if events.len() > 0 {
        lemma_history(command, events.drop_last());
    }
    let secap = FullyQualifiedApAddress { dp: DpAddress::Default, ap: ApAddress::V1(2) };
    let wire = seq![
        Action::WriteApRegister { ap: secap, address: 0x04, value: command },
        Action::WriteApRegister { ap: secap, address: 0x00, value: 0 },
        Action::ReadApRegister { ap: secap, address: 0x08 },
        Action::ReadApRegister { ap: secap, address: 0x0c },
        Action::Sleep(1000),
        Action::SwjPins { output: 0, select: 0x80, wait: 0 },
        Action::Sleep(100),
        Action::SwjPins { output: 0x80, select: 0x80, wait: 0 },
        Action::Sleep(100),
        Action::SuppressRecovery,
        Action::Reinitialize,
        Action::ReadClock,
        Action::ReadApRegister { ap: secap, address: 0x0c },
    ];
    assert(wire.take(12) =~= opening(command));
    assert forall|i: int| 0 <= i < events.len() implies actions[i] == wire[i] by {
        assert(wire.take(12)[i] == wire[i]);
    }
    assert(actions =~= wire.take(events.len() as int));
}

/// What is done next while the recovery is suppressed, for whatever came back.
///
/// The flags are read until bit 0 is set or two seconds are over since the clock
/// was first read; before each further reading of them the link is brought up
/// again if the last one failed, the clock is read, and 10 ms pass. When bit 0
/// is set the payload is read. When the time is up the boot diagnostic is read,
/// and told of if that worked. Nothing but the recovery's being resumed follows
/// on the payload, on a boot diagnostic that could not be read, and on its being
/// told of; and the execution does not end before that.
pub proof fn law_polling_steps<E>(command: u32, events: Seq<Event<E>>)
    requires
        crate::machine::is_run(begin::<E>(command), events),
        events.len() > 12,
        forall|i: int|
            0 <= i < events.len() ==> #[trigger] crate::machine::trace(
                begin::<E>(command),
                events,
            )[i] != Action::ResumeRecovery,
    ensures
        ({
            let secap = FullyQualifiedApAddress { dp: DpAddress::Default, ap: ApAddress::V1(2) };
            let cfg_ap = FullyQualifiedApAddress { dp: DpAddress::Default, ap: ApAddress::V1(1) };
            let flags = Action::ReadApRegister { ap: secap, address: 0x0c };
            let payload = Action::ReadApRegister { ap: secap, address: 0x08 };
            let bootdiag = Action::ReadApRegister { ap: cfg_ap, address: 0x10 };
            let progress = crate::machine::after(begin::<E>(command), events);
            let next = progress->Pending_0.pending();
            let done = crate::machine::trace(begin::<E>(command), events).last();
            let event = events.last();
            &&& progress is Pending
            &&& events[11] is Clock
            &&& {
                ||| done == flags && next == match event {
                    Event::Value(rcr) => if rcr & 1 != 0 {
                        payload
                    } else {
                        Action::ReadClock
                    },
                    _ => Action::Reinitialize,
                }
                ||| done == Action::Reinitialize && next == Action::ReadClock
                ||| done == Action::ReadClock && next == if event->Clock_0 >= events[11]->Clock_0
                    + 2_000_000_000 {
                    bootdiag
                } else {
                    Action::Sleep(10)
                }
                ||| done == Action::Sleep(10) && next == flags
                ||| done == payload && next == Action::ResumeRecovery
                ||| done == bootdiag && next == match event {
                    Event::Value(value) => Action::ReportTimeout(BootDiagnostic { value }),
                    _ => Action::ResumeRecovery,
                }
                ||| done is ReportTimeout && next == Action::ResumeRecovery
            }
        }),
{
    let actions = crate::machine::trace(begin::<E>(command), events);
    let earlier = events.drop_last();
    lemma_history(command, events);
    lemma_history(command, earlier);
    let m = crate::machine::after(begin::<E>(command), earlier)->Pending_0;
    assert(actions[actions.len() - 1] == m.pending());
    if let Some(k) = closing_position(m.phase) {
        let r = earlier.len() - k - 1;
        assert(actions[r] == crate::machine::trace(begin::<E>(command), earlier)[r]);
    }
}

/// What follows once the recovery is resumed. If the payload was read last, it
/// decides together with the flags read before it: `0x1_0003` with an echo of
/// the command's low byte is a success, and a pause follows; all else is a
/// failure, and reported at once. If it was not read, the time was up.
pub proof fn law_resumed<E>(command: u32, events: Seq<Event<E>>)
    requires
        crate::machine::is_run(begin::<E>(command), events),
        events.len() > 0,
        crate::machine::trace(begin::<E>(command), events).last() == Action::ResumeRecovery,
    ensures
        ({
            let secap = FullyQualifiedApAddress { dp: DpAddress::Default, ap: ApAddress::V1(2) };
            let flags = Action::ReadApRegister { ap: secap, address: 0x0c };
            let payload = Action::ReadApRegister { ap: secap, address: 0x08 };
            let n = events.len() as int;
            let actions = crate::machine::trace(begin::<E>(command), events);
            let progress = crate::machine::after(begin::<E>(command), events);
            let result = progress->Finished_0;
            &&& n > 13
            &&& actions[n - 2] == payload ==> {
                let rcr = events[n - 3]->Value_0;
                &&& actions[n - 3] == flags
                &&& events[n - 3] is Value
                &&& rcr & 1 != 0
                &&& match events[n - 2] {
                    Event::Value(rxd) => if rxd != 0x1_0003 {
                        progress is Finished && result == Err::<(), DssmError<E>>(
                            DssmError::Rejected(Rejection::CommandFailed { command, rxd, rcr }),
                        )
                    } else if rcr & 0xfe != command & 0xff {
                        progress is Finished && result == Err::<(), DssmError<E>>(
                            DssmError::Rejected(Rejection::EchoMismatch { command, rcr }),
                        )
                    } else {
                        progress matches Progress::Pending(m) && m.pending() == Action::Sleep(1000)
                    },
                    Event::Failed(error) => progress is Finished && result == Err::<
                        (),
                        DssmError<E>,
                    >(DssmError::Interface(error)),
                    _ => false,
                }
            }
            &&& actions[n - 2] != payload ==> progress is Finished && result == Err::<
                (),
                DssmError<E>,
            >(DssmError::Timeout)
        }),
{
    let secap = FullyQualifiedApAddress { dp: DpAddress::Default, ap: ApAddress::V1(2) };
    let payload = Action::ReadApRegister { ap: secap, address: 0x08 };
    let n = events.len() as int;
    let actions = crate::machine::trace(begin::<E>(command), events);
    let earlier = events.drop_last();
    let before = crate::machine::trace(begin::<E>(command), earlier);
    lemma_history(command, events);
    lemma_history(command, earlier);
    let m = crate::machine::after(begin::<E>(command), earlier)->Pending_0;
    assert(actions[n - 1] == m.pending());
    assert(m.phase is Resume);
    assert(before.len() == n - 1);
    assert(actions[n - 2] == before[n - 2]);
    assert(events[n - 2] == earlier[n - 2]);
    let result = m.phase->Resume_0;
    lemma_resume_result(command, before, earlier, result);
    if n > 2 {
        assert(actions[n - 3] == before[n - 3]);
        assert(events[n - 3] == earlier[n - 3]);
    }
}

/// The result of the polling, told by its last actions.
proof fn lemma_resume_result<E>(
    command: u32,
    actions: Seq<Action>,
    events: Seq<Event<E>>,
    result: Result<(), DssmError<E>>,
)
    requires
        actions.len() == events.len(),
        polled_to(command, actions, events, actions.len() as int, result),
    ensures
        ({
            let secap = FullyQualifiedApAddress { dp: DpAddress::Default, ap: ApAddress::V1(2) };
            let flags = Action::ReadApRegister { ap: secap, address: 0x0c };
            let payload = Action::ReadApRegister { ap: secap, address: 0x08 };
            let n = actions.len() as int;
            let rcr = events[n - 2]->Value_0;
            &&& n > 12
            &&& actions[n - 1] == payload ==> {
                &&& actions[n - 2] == flags
                &&& events[n - 2] is Value
                &&& rcr & 1 != 0
                &&& match events[n - 1] {
                    Event::Value(rxd) => if rxd != 0x1_0003 {
                        result == Err::<(), DssmError<E>>(
                            DssmError::Rejected(Rejection::CommandFailed { command, rxd, rcr }),
                        )
                    } else if rcr & 0xfe != command & 0xff {
                        result == Err::<(), DssmError<E>>(
                            DssmError::Rejected(Rejection::EchoMismatch { command, rcr }),
                        )
                    } else {
                        result is Ok
                    },
                    Event::Failed(error) => result == Err::<(), DssmError<E>>(
                        DssmError::Interface(error),
                    ),
                    _ => false,
                }
            }
            &&& actions[n - 1] != payload ==> result == Err::<(), DssmError<E>>(
                DssmError::Timeout,
            )
        }),
{
    let n = actions.len() as int;
    let rcr = events[n - 2]->Value_0;
    super::response::law_verdict(command, rcr, events[n - 1]->Value_0);
}

/// What follows once a success is taken in: after the pause nRST is toggled once
/// more, and after another pause the execution succeeds. It fails exactly if
/// nRST could not be driven, with that error.
pub proof fn law_closing_steps<E>(command: u32, events: Seq<Event<E>>, resumed: int)
    requires
        crate::machine::is_run(begin::<E>(command), events),
        0 <= resumed < events.len() - 1,
        crate::machine::trace(begin::<E>(command), events)[resumed] == Action::ResumeRecovery,
    ensures
        ({
            let wire = seq![
                Action::Sleep(1000),
                Action::SwjPins { output: 0, select: 0x80, wait: 0 },
                Action::Sleep(100),
                Action::SwjPins { output: 0x80, select: 0x80, wait: 0 },
                Action::Sleep(100),
                Action::Sleep(1000),
            ];
            let n = events.len() - resumed - 1;
            let broken = (n == 2 || n == 4) && events.last() is Failed;
            &&& n <= 6
            &&& crate::machine::trace(begin::<E>(command), events).skip(resumed + 1) == wire.take(n)
            &&& match crate::machine::after(begin::<E>(command), events) {
                Progress::Pending(m) => !broken && n < 6 && m.pending() == wire[n],
                Progress::Finished(Ok(())) => !broken && n == 6,
                Progress::Finished(Err(error)) => broken && error == DssmError::Interface(
                    events.last()->Failed_0,
                ),
            }
        }),
{
    let actions = crate::machine::trace(begin::<E>(command), events);
    let earlier = events.drop_last();
    let before = crate::machine::trace(begin::<E>(command), earlier);
    lemma_history(command, events);
    lemma_history(command, earlier);
    let m = crate::machine::after(begin::<E>(command), earlier)->Pending_0;
    assert(before[resumed] == actions[resumed]);
    lemma_resumed_position(command, m, before, earlier, resumed);
    let k = closing_position(m.phase)->Some_0;
    assert(actions =~= before.push(m.pending()));
    assert(m.pending() == closing()[k]);
    assert forall|i: int| 0 <= i < k + 1 implies actions[resumed + 1 + i] == closing()[i] by {
        if i < k {
            assert(before[resumed + 1 + i] == closing()[i]);
        }
    }
    assert(actions.skip(resumed + 1) =~= closing().take(k + 1));
}

/// The recovery is resumed only once, right before the closing.
proof fn lemma_resumed_position<E>(
    command: u32,
    m: DssmCommand<E>,
    actions: Seq<Action>,
    events: Seq<Event<E>>,
    resumed: int,
)
    requires
        history(command, Progress::Pending(m), actions, events),
        0 <= resumed < actions.len(),
        actions[resumed] == Action::ResumeRecovery,
    ensures
        closing_position(m.phase) is Some,
        resumed == actions.len() - closing_position(m.phase)->Some_0 - 1,
        closes(command, actions, events, closing_position(m.phase)->Some_0),
{
    assert forall|i: int| 0 <= i < 12 implies #[trigger] opening(command)[i]
        != Action::ResumeRecovery by {}
    if let Some(k) = closing_position(m.phase) {
        let n = actions.len() - k - 1;
        if resumed > n {
            assert(actions[n + 1 + (resumed - n - 1)] == closing()[resumed - n - 1]);
        }
        if resumed < n && resumed < 12 {
            assert(actions[resumed] == opening(command)[resumed]);
        }
    } else if resumed < 12 {
        assert(actions[resumed] == opening(command)[resumed]);
    }
}

/// Whether the flags read at `i` announced a response whose payload, read at
/// `j`, acknowledges the command.
pub open spec fn acknowledged_at<E>(
    command: u32,
    actions: Seq<Action>,
    events: Seq<Event<E>>,
    i: int,
    j: int,
) -> bool {
    let secap = FullyQualifiedApAddress { dp: DpAddress::Default, ap: ApAddress::V1(2) };
    &&& 0 <= i < j < events.len()
    &&& actions[i] == (Action::ReadApRegister { ap: secap, address: 0x0c })
    &&& events[i] matches Event::Value(rcr) && rcr & 1 != 0 && rcr & 0xfe == command & 0xff
    &&& actions[j] == (Action::ReadApRegister { ap: secap, address: 0x08 })
    &&& events[j] == Event::<E>::Value(0x1_0003)
}

/// Whether the flags read at `i` announced a response.
spec fn announced_at<E>(actions: Seq<Action>, events: Seq<Event<E>>, i: int, rcr: u32) -> bool {
    let secap = FullyQualifiedApAddress { dp: DpAddress::Default, ap: ApAddress::V1(2) };
    &&& 0 <= i < events.len()
    &&& actions[i] == (Action::ReadApRegister { ap: secap, address: 0x0c })
    &&& events[i] == Event::<E>::Value(rcr)
    &&& rcr & 1 != 0
}

/// Whether the flags announced a response at some point.
spec fn announced<E>(actions: Seq<Action>, events: Seq<Event<E>>, rcr: u32) -> bool {
    exists|i: int| #[trigger] announced_at(actions, events, i, rcr)
}

/// Whether a response acknowledged the command at some point.
spec fn acknowledged<E>(
    command: u32,
    actions: Seq<Action>,
    events: Seq<Event<E>>,
) -> bool {
    exists|i: int, j: int| #[trigger] acknowledged_at(command, actions, events, i, j)
}

/// Whether an execution is on its way to a success, or has come there.
pub open spec fn promising<E>(progress: Progress<DssmCommand<E>, Result<(), DssmError<E>>>) -> bool {
    match progress {
        Progress::Pending(m) => match m.phase {
            Phase::Resume(result) => result is Ok,
            _ => closing_position(m.phase) is Some,
        },
        Progress::Finished(result) => result is Ok,
    }
}

/// What an execution that is on its way to a success must have seen.
spec fn evidence<E>(
    command: u32,
    progress: Progress<DssmCommand<E>, Result<(), DssmError<E>>>,
    actions: Seq<Action>,
    events: Seq<Event<E>>,
) -> bool {
    &&& actions.len() == events.len()
    &&& progress matches Progress::Pending(m) ==> {
        &&& m.command == command
        &&& m.phase matches Phase::Poll(poll) ==> {
            &&& poll.command == command
            &&& poll.stage matches PollStage::Response { rcr } ==> announced(actions, events, rcr)
        }
    }
    &&& promising(progress) ==> acknowledged(command, actions, events)
}

/// What was seen stays seen, whatever happens next.
proof fn lemma_acknowledged_push<E>(
    command: u32,
    actions: Seq<Action>,
    events: Seq<Event<E>>,
    action: Action,
    event: Event<E>,
)
    requires
        actions.len() == events.len(),
        acknowledged(command, actions, events),
    ensures
        acknowledged(command, actions.push(action), events.push(event)),
{
    let (i, j) = choose|i: int, j: int| #[trigger] acknowledged_at(command, actions, events, i, j);
    assert(acknowledged_at(command, actions.push(action), events.push(event), i, j));
}

/// A step of an execution keeps the evidence, whatever event comes.
proof fn lemma_evidence_step<E>(
    command: u32,
    m: DssmCommand<E>,
    actions: Seq<Action>,
    events: Seq<Event<E>>,
    event: Event<E>,
)
    requires
        evidence(command, Progress::Pending(m), actions, events),
    ensures
        evidence(command, m.step(event), actions.push(m.pending()), events.push(event)),
{
    let longer = actions.push(m.pending());
    let told = events.push(event);
    if promising(Progress::<DssmCommand<E>, Result<(), DssmError<E>>>::Pending(m)) {
        lemma_acknowledged_push(command, actions, events, m.pending(), event);
    }
    if let Phase::Poll(poll) = m.phase {
        if let PollStage::Response { rcr } = poll.stage {
            let i = choose|i: int| #[trigger] announced_at(actions, events, i, rcr);
            assert(announced_at(longer, told, i, rcr));
            if let Event::Value(rxd) = event {
                super::response::law_verdict(command, rcr, rxd);
                if rxd == 0x1_0003 && rcr & 0xfe == command & 0xff {
                    assert(acknowledged_at(command, longer, told, i, events.len() as int));
                }
            }
        }
        if poll.stage is Status {
            if let Event::Value(rcr) = event {
                if rcr & 1 != 0 {
                    assert(announced_at(longer, told, events.len() as int, rcr));
                }
            }
        }
    }
}

proof fn lemma_evidence<E>(command: u32, events: Seq<Event<E>>)
    ensures
        crate::machine::after(begin::<E>(command), events) is Pending ==> evidence(
            command,
            crate::machine::after(begin::<E>(command), events),
            crate::machine::trace(begin::<E>(command), events),
            events,
        ),
        crate::machine::after(begin::<E>(command), events) matches Progress::Finished(result)
            && result is Ok ==> acknowledged(
            command,
            crate::machine::trace(begin::<E>(command), events),
            events,
        ),
    decreases events.len(),
{
    let actions = crate::machine::trace(begin::<E>(command), events);
    if events.len() > 0 {
        let earlier = events.drop_last();
        let before = crate::machine::trace(begin::<E>(command), earlier);
        lemma_evidence(command, earlier);
        match crate::machine::after(begin::<E>(command), earlier) {
            Progress::Pending(m) => {
                assert(events =~= earlier.push(events.last()));
                lemma_evidence_step(command, m, before, earlier, events.last());
            },
            Progress::Finished(Ok(())) => {
                let (i, j) = choose|i: int, j: int| #[trigger]
                    acknowledged_at(command, before, earlier, i, j);
                assert(acknowledged_at(command, actions, events, i, j));
            },
            _ => {},
        }
    }
}

/// No execution succeeds unless the flags were read with bit 0 set and the echo
/// of the command, and the payload `0x1_0003` after that. This holds of any
/// events at all, answers or not.
pub proof fn law_no_success_unacknowledged<E>(command: u32, events: Seq<Event<E>>)
    requires
        crate::machine::after(begin::<E>(command), events) matches Progress::Finished(result)
            && result is Ok,
    ensures
        exists|i: int, j: int| #[trigger]
            acknowledged_at(
                command,
                crate::machine::trace(begin::<E>(command), events),
                events,
                i,
                j,
            ),
{
    lemma_evidence(command, events);
}

} // verus!
