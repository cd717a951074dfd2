//! What holds of every factory reset.

use super::bus;
use super::command::{DssmCommand, Phase};
use super::poll::PollStage;
use super::factory::{Action, Event, FactoryReset, FactoryResetError, WireProtocol, DEBUG_SEQUENCE};
use super::response::DssmError;
use super::{ApAddress, DpAddress, FullyQualifiedApAddress, DSSM_CMD_FACTORY_RESET};
use crate::machine::{Machine, Progress};
use vstd::prelude::*;

verus! {

/// What the debug interface told, among the events of a factory reset.
pub open spec fn interface_events<E>(events: Seq<Event<E>>) -> Seq<bus::Event<E>>
    decreases events.len(),
{
    if events.len() == 0 {
        Seq::empty()
    } else {
        match events.last() {
            Event::Interface(event) => interface_events(events.drop_last()).push(event),
            _ => interface_events(events.drop_last()),
        }
    }
}

/// What is done on the debug interface, among the actions of a factory reset.
pub open spec fn interface_actions(actions: Seq<Action>) -> Seq<bus::Action>
    decreases actions.len(),
{
    if actions.len() == 0 {
        Seq::empty()
    } else {
        match actions.last() {
            Action::Interface(action) => interface_actions(actions.drop_last()).push(action),
            _ => interface_actions(actions.drop_last()),
        }
    }
}

/// The execution of the DSSM command inside a factory reset, as far as the
/// debug interface told of it.
pub open spec fn command_after<E>(events: Seq<Event<E>>) -> Progress<
    DssmCommand<E>,
    Result<(), DssmError<E>>,
> {
    crate::machine::after(
        super::laws::begin::<E>(DSSM_CMD_FACTORY_RESET),
        interface_events(events),
    )
}

/// Whether the debug interface was made.
pub open spec fn interface_made<E>(events: Seq<Event<E>>) -> bool {
    events.len() >= 3 && events[2] is Done
}

/// The actions before the command: SWD is selected, the probe is attached
/// without a target, and it is turned into a debug interface.
pub open spec fn preparation() -> Seq<Action> {
    seq![
        Action::SelectProtocol(WireProtocol::Swd),
        Action::AttachToUnspecified,
        Action::IntoArmDebugInterface { sequence: DEBUG_SEQUENCE },
    ]
}

/// The actions begin with the preparation, or with what there is of it.
pub open spec fn prepares(actions: Seq<Action>) -> bool {
    forall|i: int|
        0 <= i < 3 && i < actions.len() ==> #[trigger] actions[i] == preparation()[i]
}

/// Which debug port was found selected before `n`, and that the default one was
/// selected if none was.
pub open spec fn port_selected<E>(actions: Seq<Action>, events: Seq<Event<E>>, n: int) -> bool {
    ||| {
        &&& 4 <= n
        &&& actions[n - 1] == Action::CurrentDebugPort
        &&& events[n - 1] matches Event::DebugPort(port) && port is Some
    }
    ||| {
        &&& 5 <= n
        &&& actions[n - 2] == Action::CurrentDebugPort
        &&& events[n - 2] == Event::<E>::DebugPort(None)
        &&& actions[n - 1] == Action::SelectDebugPort(DpAddress::Default)
    }
}

/// What the actions and events so far look like, wherever the factory reset
/// stands.
spec fn history<E>(
    progress: Progress<FactoryReset<E>, Result<(), FactoryResetError<E>>>,
    actions: Seq<Action>,
    events: Seq<Event<E>>,
) -> bool {
    let n = actions.len() as int;
    let command = super::laws::begin::<E>(DSSM_CMD_FACTORY_RESET);
    &&& n == events.len()
    &&& prepares(actions)
    &&& crate::machine::is_run(command, interface_events(events))
    &&& interface_actions(actions) == crate::machine::trace(command, interface_events(events))
    &&& match progress {
        Progress::Pending(FactoryReset::SelectProtocol) => n == 0 && interface_events(events).len()
            == 0,
        Progress::Pending(FactoryReset::Attach) => n == 1 && interface_events(events).len() == 0,
        Progress::Pending(FactoryReset::OpenInterface) => n == 2 && interface_events(events).len()
            == 0,
        Progress::Pending(FactoryReset::Abandon(error)) => {
            &&& n == 3
            &&& events[2] == Event::Failed(error)
            &&& interface_events(events).len() == 0
        },
        Progress::Pending(FactoryReset::Command(execution)) => {
            &&& interface_made(events)
            &&& command_after(events) == Progress::<
                DssmCommand<E>,
                Result<(), DssmError<E>>,
            >::Pending(execution)
        },
        Progress::Pending(FactoryReset::CheckDebugPort(result)) => {
            &&& interface_made(events)
            &&& command_after(events) == Progress::<
                DssmCommand<E>,
                Result<(), DssmError<E>>,
            >::Finished(result)
        },
        Progress::Pending(FactoryReset::SelectDebugPort(result)) => {
            &&& interface_made(events)
            &&& command_after(events) == Progress::<
                DssmCommand<E>,
                Result<(), DssmError<E>>,
            >::Finished(result)
            &&& 4 <= n
            &&& actions[n - 1] == Action::CurrentDebugPort
            &&& events[n - 1] == Event::<E>::DebugPort(None)
        },
        Progress::Pending(FactoryReset::Close(result)) => {
            &&& interface_made(events)
            &&& command_after(events) == Progress::<
                DssmCommand<E>,
                Result<(), DssmError<E>>,
            >::Finished(result)
            &&& port_selected(actions, events, n)
        },
        Progress::Pending(FactoryReset::Detach(result)) => {
            &&& interface_made(events)
            &&& command_after(events) == Progress::<
                DssmCommand<E>,
                Result<(), DssmError<E>>,
            >::Finished(result)
            &&& port_selected(actions, events, n - 1)
            &&& actions[n - 1] == Action::Close
        },
        Progress::Finished(result) => if interface_made(events) {
            &&& cleaned_up(actions, events)
            &&& command_after(events) == Progress::<
                DssmCommand<E>,
                Result<(), DssmError<E>>,
            >::Finished(
                match result {
                    Ok(()) => Ok(()),
                    Err(error) => Err(error->Command_0),
                },
            )
            &&& result is Err ==> result->Err_0 is Command
        } else {
            &&& interface_events(events).len() == 0
            &&& unprepared(actions, events)
            &&& result == Err::<(), FactoryResetError<E>>(
                FactoryResetError::Probe(preparation_error(events)),
            )
        },
    }
}

/// In the end the debug port was selected if it was not yet, the interface was
/// closed, and the probe was detached.
pub open spec fn cleaned_up<E>(actions: Seq<Action>, events: Seq<Event<E>>) -> bool {
    let n = actions.len() as int;
    &&& 2 <= n
    &&& port_selected(actions, events, n - 2)
    &&& actions[n - 2] == Action::Close
    &&& actions[n - 1] == Action::Detach
}

/// The preparation failed. A probe that was attached, but could not be turned
/// into a debug interface, was detached.
pub open spec fn unprepared<E>(actions: Seq<Action>, events: Seq<Event<E>>) -> bool {
    let n = actions.len() as int;
    ||| 1 <= n <= 2 && events[n - 1] is Failed
    ||| n == 4 && events[2] is Failed && actions[3] == Action::Detach
}

/// The error that made the preparation fail.
pub open spec fn preparation_error<E>(events: Seq<Event<E>>) -> E {
    if events.len() <= 2 {
        events.last()->Failed_0
    } else {
        events[2]->Failed_0
    }
}

proof fn lemma_history_step<E>(
    m: FactoryReset<E>,
    actions: Seq<Action>,
    events: Seq<Event<E>>,
    event: Event<E>,
)
    requires
        history(Progress::Pending(m), actions, events),
        m.expects(event),
    ensures
        history(m.step(event), actions.push(m.pending()), events.push(event)),
{
    let command = super::laws::begin::<E>(DSSM_CMD_FACTORY_RESET);
    let longer = actions.push(m.pending());
    let told = events.push(event);
    assert(told.drop_last() =~= events);
    assert(longer.drop_last() =~= actions);
    assert forall|i: int| 0 <= i < 3 && i < longer.len() implies #[trigger] longer[i]
        == preparation()[i] by {
        if i < actions.len() {
            assert(longer[i] == actions[i]);
        }
    }
    if let FactoryReset::Command(execution) = m {
        crate::machine::lemma_push(command, interface_events(events), event->Interface_0);
    }
}

proof fn lemma_history<E>(events: Seq<Event<E>>)
    requires
        crate::machine::is_run(FactoryReset::<E>::SelectProtocol, events),
    ensures
        history(
            crate::machine::after(FactoryReset::<E>::SelectProtocol, events),
            crate::machine::trace(FactoryReset::<E>::SelectProtocol, events),
            events,
        ),
    decreases events.len(),
{
    let begin = FactoryReset::<E>::SelectProtocol;
    if events.len() > 0 {
        let earlier = events.drop_last();
        lemma_history(earlier);
        lemma_history_step(
            crate::machine::after(begin, earlier)->Pending_0,
            crate::machine::trace(begin, earlier),
            earlier,
            events.last(),
        );
        assert(events =~= earlier.push(events.last()));
    }
}

/// Every factory reset begins by selecting SWD, attaching without a target and
/// making the debug interface, and then executes the factory reset command and
/// no other: what it does on the debug interface, action by action, and what it
/// is told of it, is an execution of that command.
pub proof fn law_executes_factory_reset<E>(events: Seq<Event<E>>)
    requires
        crate::machine::is_run(FactoryReset::<E>::SelectProtocol, events),
    ensures
        prepares(crate::machine::trace(FactoryReset::<E>::SelectProtocol, events)),
        crate::machine::is_run(
            super::laws::begin::<E>(DSSM_CMD_FACTORY_RESET),
            interface_events(events),
        ),
        interface_actions(crate::machine::trace(FactoryReset::<E>::SelectProtocol, events))
            == crate::machine::trace(
            super::laws::begin::<E>(DSSM_CMD_FACTORY_RESET),
            interface_events(events),
        ),
        crate::machine::after(FactoryReset::<E>::SelectProtocol, events) matches Progress::Pending(
            FactoryReset::Command(execution),
        ) ==> command_after(events) == Progress::<
            DssmCommand<E>,
            Result<(), DssmError<E>>,
        >::Pending(execution),
{
    lemma_history(events);
}

/// Nothing is ever written to the device in a factory reset but the factory
/// reset command and its empty payload, once each.
pub proof fn law_writes<E>(events: Seq<Event<E>>, i: int)
    requires
        crate::machine::is_run(FactoryReset::<E>::SelectProtocol, events),
        0 <= i < interface_actions(
            crate::machine::trace(FactoryReset::<E>::SelectProtocol, events),
        ).len(),
        interface_actions(
            crate::machine::trace(FactoryReset::<E>::SelectProtocol, events),
        )[i] is WriteApRegister,
    ensures
        i < 2,
        interface_actions(crate::machine::trace(FactoryReset::<E>::SelectProtocol, events))[i]
            == super::laws::opening(DSSM_CMD_FACTORY_RESET)[i],
{
    lemma_history(events);
    super::laws::law_opening(DSSM_CMD_FACTORY_RESET, interface_events(events));
    super::laws::law_writes(DSSM_CMD_FACTORY_RESET, interface_events(events), i);
}

/// The outcome of a factory reset is that of the command, once there is a debug
/// interface to execute it on, and else the error that prevented it; without
/// the interface, nothing is done on it.
pub proof fn law_outcome<E>(events: Seq<Event<E>>, result: Result<(), FactoryResetError<E>>)
    requires
        crate::machine::is_run(FactoryReset::<E>::SelectProtocol, events),
        crate::machine::after(FactoryReset::<E>::SelectProtocol, events) == Progress::<
            FactoryReset<E>,
            Result<(), FactoryResetError<E>>,
        >::Finished(result),
    ensures
        interface_made(events) ==> match result {
            Ok(()) => command_after(events) == Progress::<
                DssmCommand<E>,
                Result<(), DssmError<E>>,
            >::Finished(Ok(())),
            Err(FactoryResetError::Command(error)) => command_after(events) == Progress::<
                DssmCommand<E>,
                Result<(), DssmError<E>>,
            >::Finished(Err(error)),
            Err(FactoryResetError::Probe(_)) => false,
        },
        !interface_made(events) ==> {
            &&& interface_events(events).len() == 0
            &&& result == Err::<(), FactoryResetError<E>>(
                FactoryResetError::Probe(preparation_error(events)),
            )
        },
{
    lemma_history(events);
}

/// A factory reset leaves nothing open, with whatever outcome: a debug
/// interface that was made is closed, with its debug port selected first, and
/// its probe detached. So is a probe that was attached but could not be turned
/// into a debug interface.
pub proof fn law_cleans_up<E>(events: Seq<Event<E>>)
    requires
        crate::machine::is_run(FactoryReset::<E>::SelectProtocol, events),
        crate::machine::after(FactoryReset::<E>::SelectProtocol, events) is Finished,
    ensures
        interface_made(events) ==> cleaned_up(
            crate::machine::trace(FactoryReset::<E>::SelectProtocol, events),
            events,
        ),
        !interface_made(events) ==> unprepared(
            crate::machine::trace(FactoryReset::<E>::SelectProtocol, events),
            events,
        ),
{
    lemma_history(events);
}

/// How many events are not the debug interface's, at most, wherever the factory
/// reset stands.
spec fn overhead<E>(
    progress: Progress<FactoryReset<E>, Result<(), FactoryResetError<E>>>,
) -> int {
    match progress {
        Progress::Pending(FactoryReset::SelectProtocol) => 0,
        Progress::Pending(FactoryReset::Attach) => 1,
        Progress::Pending(FactoryReset::OpenInterface) => 2,
        Progress::Pending(FactoryReset::Abandon(_)) => 3,
        Progress::Pending(FactoryReset::Command(_)) => 3,
        Progress::Pending(FactoryReset::CheckDebugPort(_)) => 3,
        Progress::Pending(FactoryReset::SelectDebugPort(_)) => 4,
        Progress::Pending(FactoryReset::Close(_)) => 5,
        Progress::Pending(FactoryReset::Detach(_)) => 6,
        Progress::Finished(_) => 7,
    }
}

proof fn lemma_overhead<E>(events: Seq<Event<E>>)
    requires
        crate::machine::is_run(FactoryReset::<E>::SelectProtocol, events),
    ensures
        events.len() <= interface_events(events).len() + overhead(
            crate::machine::after(FactoryReset::<E>::SelectProtocol, events),
        ),
    decreases events.len(),
{
    if events.len() > 0 {
        lemma_overhead(events.drop_last());
    }
}

/// Every factory reset comes to an end, as long as the clock runs: it takes at
/// most seven actions besides those of the command.
pub proof fn law_termination<E>(events: Seq<Event<E>>)
    requires
        crate::machine::is_run(FactoryReset::<E>::SelectProtocol, events),
        super::progress_laws::clock_runs(
            crate::machine::trace(
                super::laws::begin::<E>(DSSM_CMD_FACTORY_RESET),
                interface_events(events),
            ),
            interface_events(events),
        ),
    ensures
        events.len() <= 12 + 4 * (super::RESPONSE_TIMEOUT / super::RESPONSE_POLL_INTERVAL) + 9 + 7,
{
    lemma_history(events);
    lemma_overhead(events);
    super::progress_laws::law_termination(DSSM_CMD_FACTORY_RESET, interface_events(events));
}

/// What answers what: whatever is done with the probe is answered by its being
/// done, and can fail, except that closing the interface cannot. What is done on
/// the debug interface is answered by what answers it there, all of it. The
/// question for the debug port is answered by one, or by there being none.
pub proof fn law_answers<E>(
    action: Action,
    error: E,
    told: bus::Event<E>,
    port: Option<DpAddress>,
)
    ensures
        action.answered_by(Event::<E>::Done) <==> !(action is Interface) && !(action
            is CurrentDebugPort),
        action.answered_by(Event::<E>::Failed(error)) <==> !(action is Interface) && !(action
            is CurrentDebugPort) && !(action is Close),
        action.answered_by(Event::<E>::Interface(told)) <==> action is Interface
            && action->Interface_0.answered_by(told),
        action.answered_by(Event::<E>::DebugPort(port)) <==> action is CurrentDebugPort,
{
}

/// Every answer to its action is expected of a factory reset, and any other
/// event leaves it where it is.
pub proof fn law_expects_answers<E>(reset: FactoryReset<E>, event: Event<E>)
    ensures
        reset.pending() == reset.call(),
        reset.expects(event) <==> reset.call().answered_by(event),
        !reset.call().answered_by(event) ==> reset.step(event) == Progress::<
            FactoryReset<E>,
            Result<(), FactoryResetError<E>>,
        >::Pending(reset),
{
}

/// What is done next in a factory reset, or with what it ends, for whatever came
/// back.
///
/// SWD is selected, the probe attached and turned into a debug interface; a
/// failure of these ends it, after the probe was detached if it could not be
/// turned. On the interface the command `0x020a` is executed, to its end. Then
/// the default debug port is selected if none is, the interface is closed, the
/// probe detached, and the outcome of the command reported; none of these
/// changes it.
pub proof fn law_next_action<E>(events: Seq<Event<E>>)
    requires
        crate::machine::is_run(FactoryReset::<E>::SelectProtocol, events),
    ensures
        ({
            let begin = FactoryReset::<E>::SelectProtocol;
            let n = events.len() as int;
            let actions = crate::machine::trace(begin, events);
            let progress = crate::machine::after(begin, events);
            let next = progress->Pending_0.call();
            let result = progress->Finished_0;
            let done = actions.last();
            let event = events.last();
            let command = crate::machine::after(
                super::laws::begin::<E>(0x020a),
                interface_events(events),
            );
            &&& actions.len() == n
            &&& n == 0 ==> progress is Pending && next == Action::SelectProtocol(WireProtocol::Swd)
            &&& (n == 1 || n == 2) && event is Failed ==> progress is Finished && result == Err::<
                (),
                FactoryResetError<E>,
            >(FactoryResetError::Probe(event->Failed_0))
            &&& n == 1 && !(event is Failed) ==> progress is Pending && next
                == Action::AttachToUnspecified
            &&& n == 2 && !(event is Failed) ==> progress is Pending && next is IntoArmDebugInterface
                && next->sequence@ == "MSPM0"@
            &&& n == 3 && event is Failed ==> progress is Pending && next == Action::Detach
            &&& n > 3 && events[2] is Failed ==> n == 4 && progress is Finished && result == Err::<
                (),
                FactoryResetError<E>,
            >(FactoryResetError::Probe(events[2]->Failed_0))
            &&& n >= 3 && !(events[2] is Failed) ==> {
                ||| {
                    &&& n == 3 || done is Interface
                    &&& progress is Pending
                    &&& next == match command {
                        Progress::Pending(execution) => Action::Interface(execution.pending()),
                        Progress::Finished(_) => Action::CurrentDebugPort,
                    }
                }
                ||| {
                    &&& done == Action::CurrentDebugPort
                    &&& progress is Pending
                    &&& next == if event->DebugPort_0 is None {
                        Action::SelectDebugPort(DpAddress::Default)
                    } else {
                        Action::Close
                    }
                }
                ||| {
                    &&& done == Action::SelectDebugPort(DpAddress::Default)
                    &&& progress is Pending
                    &&& next == Action::Close
                }
                ||| done == Action::Close && progress is Pending && next == Action::Detach
                ||| {
                    &&& done == Action::Detach
                    &&& progress is Finished
                    &&& command is Finished
                    &&& match command->Finished_0 {
                        Ok(()) => result is Ok,
                        Err(error) => result == Err::<(), FactoryResetError<E>>(
                            FactoryResetError::Command(error),
                        ),
                    }
                }
            }
        }),
{
    let begin = FactoryReset::<E>::SelectProtocol;
    lemma_history(events);
    if events.len() > 0 {
        let earlier = events.drop_last();
        lemma_history(earlier);
        lemma_finished_after_cleanup(events);
    }
}

/// A factory reset that failed to prepare is over after its fourth event.
proof fn lemma_finished_after_cleanup<E>(events: Seq<Event<E>>)
    requires
        crate::machine::is_run(FactoryReset::<E>::SelectProtocol, events),
        events.len() > 0,
    ensures
        events.len() > 3 && events[2] is Failed ==> events.len() == 4,
{
    lemma_history(events);
    lemma_history(events.drop_last());
}

/// The command that a factory reset executes is `0x020a`, and the first thing
/// that is done on the interface is to write it to register `0x04` of the access
/// port 2.
pub proof fn law_command_written<E>(events: Seq<Event<E>>)
    requires
        crate::machine::is_run(FactoryReset::<E>::SelectProtocol, events),
        interface_actions(
            crate::machine::trace(FactoryReset::<E>::SelectProtocol, events),
        ).len() > 0,
    ensures
        interface_actions(crate::machine::trace(FactoryReset::<E>::SelectProtocol, events))[0] == (
        bus::Action::WriteApRegister {
            ap: FullyQualifiedApAddress { dp: DpAddress::Default, ap: ApAddress::V1(2) },
            address: 0x04,
            value: 0x020a,
        }),
{
    lemma_history(events);
    super::laws::law_opening(DSSM_CMD_FACTORY_RESET, interface_events(events));
}

/// A factory reset never leaves the recovery suppressed, whatever its outcome.
pub proof fn law_recovery_restored<E>(events: Seq<Event<E>>)
    requires
        crate::machine::is_run(FactoryReset::<E>::SelectProtocol, events),
        crate::machine::after(FactoryReset::<E>::SelectProtocol, events) is Finished,
    ensures
        !super::laws::suppressed(
            interface_actions(crate::machine::trace(FactoryReset::<E>::SelectProtocol, events)),
        ),
{
    lemma_history(events);
    super::laws::law_recovery(DSSM_CMD_FACTORY_RESET, interface_events(events));
}

/// Whether the flags read at `i` announced a response.
spec fn announced_at<E>(actions: Seq<Action>, events: Seq<Event<E>>, i: int, rcr: u32) -> bool {
    let secap = FullyQualifiedApAddress { dp: DpAddress::Default, ap: ApAddress::V1(2) };
    &&& 0 <= i < events.len()
    &&& actions[i] == Action::Interface(
        bus::Action::ReadApRegister { ap: secap, address: 0x0c },
    )
    &&& events[i] == Event::Interface(bus::Event::<E>::Value(rcr))
    &&& rcr & 1 != 0
}

/// Whether the flags read at `i` announced a response whose payload, read at
/// `j`, acknowledges the factory reset command.
pub open spec fn acknowledged_at<E>(
    actions: Seq<Action>,
    events: Seq<Event<E>>,
    i: int,
    j: int,
) -> bool {
    let secap = FullyQualifiedApAddress { dp: DpAddress::Default, ap: ApAddress::V1(2) };
    &&& 0 <= i < j < events.len()
    &&& actions[i] == Action::Interface(
        bus::Action::ReadApRegister { ap: secap, address: 0x0c },
    )
    &&& events[i] matches Event::Interface(bus::Event::Value(rcr)) && rcr & 1 != 0 && rcr & 0xfe
        == 0x0a
    &&& actions[j] == Action::Interface(
        bus::Action::ReadApRegister { ap: secap, address: 0x08 },
    )
    &&& events[j] == Event::Interface(bus::Event::<E>::Value(0x1_0003))
}

/// Whether the flags announced a response at some point.
spec fn announced<E>(actions: Seq<Action>, events: Seq<Event<E>>, rcr: u32) -> bool {
    exists|i: int| #[trigger] announced_at(actions, events, i, rcr)
}

/// Whether a response acknowledged the factory reset at some point.
spec fn acknowledged<E>(actions: Seq<Action>, events: Seq<Event<E>>) -> bool {
    exists|i: int, j: int| #[trigger] acknowledged_at(actions, events, i, j)
}

/// Whether a factory reset is on its way to a success, or has come there.
spec fn promising<E>(progress: Progress<FactoryReset<E>, Result<(), FactoryResetError<E>>>) -> bool {
    match progress {
        Progress::Pending(FactoryReset::Command(execution)) => super::laws::promising(
            Progress::<DssmCommand<E>, Result<(), DssmError<E>>>::Pending(execution),
        ),
        Progress::Pending(FactoryReset::CheckDebugPort(result))
        | Progress::Pending(FactoryReset::SelectDebugPort(result))
        | Progress::Pending(FactoryReset::Close(result))
        | Progress::Pending(FactoryReset::Detach(result)) => result is Ok,
        Progress::Pending(_) => false,
        Progress::Finished(result) => result is Ok,
    }
}

/// What a factory reset that is on its way to a success must have seen.
spec fn evidence<E>(
    progress: Progress<FactoryReset<E>, Result<(), FactoryResetError<E>>>,
    actions: Seq<Action>,
    events: Seq<Event<E>>,
) -> bool {
    &&& progress is Pending ==> actions.len() == events.len()
    &&& progress matches Progress::Pending(FactoryReset::Command(execution)) ==> {
        &&& execution.command == 0x020a
        &&& execution.phase matches Phase::Poll(poll) ==> {
            &&& poll.command == 0x020a
            &&& poll.stage matches PollStage::Response { rcr } ==> announced(actions, events, rcr)
        }
    }
    &&& promising(progress) ==> acknowledged(actions, events)
}

proof fn lemma_evidence_step<E>(
    m: FactoryReset<E>,
    actions: Seq<Action>,
    events: Seq<Event<E>>,
    event: Event<E>,
)
    requires
        evidence(Progress::Pending(m), actions, events),
    ensures
        evidence(m.step(event), actions.push(m.pending()), events.push(event)),
{
    let longer = actions.push(m.pending());
    let told = events.push(event);
    if promising(Progress::<FactoryReset<E>, Result<(), FactoryResetError<E>>>::Pending(m)) {
        let (i, j) = choose|i: int, j: int| #[trigger] acknowledged_at(actions, events, i, j);
        assert(acknowledged_at(longer, told, i, j));
    }
    if let FactoryReset::Command(execution) = m {
        if let Phase::Poll(poll) = execution.phase {
            if let PollStage::Response { rcr } = poll.stage {
                let i = choose|i: int| #[trigger] announced_at(actions, events, i, rcr);
                assert(announced_at(longer, told, i, rcr));
                if let Event::Interface(bus::Event::Value(rxd)) = event {
                    super::response::law_verdict(0x020a, rcr, rxd);
                    assert(0x020au32 & 0xff == 0x0a) by (bit_vector);
                    if rxd == 0x1_0003 && rcr & 0xfe == 0x0a {
                        assert(acknowledged_at(longer, told, i, events.len() as int));
                    }
                }
            }
            if poll.stage is Status {
                if let Event::Interface(bus::Event::Value(rcr)) = event {
                    if rcr & 1 != 0 {
                        assert(announced_at(longer, told, events.len() as int, rcr));
                    }
                }
            }
        }
    }
}

proof fn lemma_evidence<E>(events: Seq<Event<E>>)
    ensures
        evidence(
            crate::machine::after(FactoryReset::<E>::SelectProtocol, events),
            crate::machine::trace(FactoryReset::<E>::SelectProtocol, events),
            events,
        ),
    decreases events.len(),
{
    let begin = FactoryReset::<E>::SelectProtocol;
    if events.len() > 0 {
        let earlier = events.drop_last();
        let before = crate::machine::trace(begin, earlier);
        lemma_evidence(earlier);
        match crate::machine::after(begin, earlier) {
            Progress::Pending(m) => {
                assert(events =~= earlier.push(events.last()));
                lemma_evidence_step(m, before, earlier, events.last());
            },
            Progress::Finished(Ok(())) => {
                let (i, j) = choose|i: int, j: int| #[trigger]
                    acknowledged_at(before, earlier, i, j);
                assert(acknowledged_at(
                    crate::machine::trace(begin, events),
                    events,
                    i,
                    j,
                ));
            },
            _ => {},
        }
    }
}

/// No factory reset succeeds unless the flags were read with bit 0 set and the
/// echo of the command, and the payload `0x1_0003` after that. This holds of any
/// events at all, answers or not.
pub proof fn law_no_success_unacknowledged<E>(events: Seq<Event<E>>)
    requires
        crate::machine::after(
            FactoryReset::<E>::SelectProtocol,
            events,
        ) matches Progress::Finished(result) && result is Ok,
    ensures
        exists|i: int, j: int| #[trigger]
            acknowledged_at(
                crate::machine::trace(FactoryReset::<E>::SelectProtocol, events),
                events,
                i,
                j,
            ),
{
    lemma_evidence(events);
}

} // verus!
