//! That an execution of a DSSM command comes to an end, and to which.

use super::bus::{Action, Event};
use super::command::{DssmCommand, Phase};
use super::poll::{PollResponse, PollStage};
use super::reset::ToggleReset;
use super::response::DssmError;
use super::{DSSM_RESPONSE_SUCCESS, RESPONSE_POLL_INTERVAL, RESPONSE_TIMEOUT};
use crate::machine::{Machine, Progress};
use vstd::prelude::*;

verus! {

/// The events of an execution up to the point where a response is pending, on
/// the first poll.
///
/// It does not matter whether the stale response could be read or the link came
/// back up at once, nor when all of this happens.
pub open spec fn attempt<E>(
    stale_data: Event<E>,
    stale_status: Event<E>,
    link: Event<E>,
    since: u128,
    rcr: u32,
) -> Seq<Event<E>> {
    seq![
        Event::Done,
        Event::Done,
        stale_data,
        stale_status,
        Event::Done,
        Event::Done,
        Event::Done,
        Event::Done,
        Event::Done,
        Event::Done,
        link,
        Event::Clock(since),
        Event::Value(rcr),
    ]
}

/// The event of an action that was done, this many times.
pub open spec fn all_done<E>(count: nat) -> Seq<Event<E>> {
    Seq::new(count, |i: int| Event::Done)
}

/// The events of an execution in which the device cooperates.
pub open spec fn cooperation<E>(
    stale_data: Event<E>,
    stale_status: Event<E>,
    link: Event<E>,
    since: u128,
    rcr: u32,
) -> Seq<Event<E>> {
    attempt(stale_data, stale_status, link, since, rcr).push(Event::Value(DSSM_RESPONSE_SUCCESS))
        + all_done(7)
}

/// Whether `events` is a run that takes the execution of `command` to `phase`.
#[verifier::opaque]
spec fn leads_to<E>(command: u32, events: Seq<Event<E>>, phase: Phase<E>) -> bool {
    &&& crate::machine::is_run(super::laws::begin::<E>(command), events)
    &&& crate::machine::after(super::laws::begin::<E>(command), events) == Progress::<
        DssmCommand<E>,
        Result<(), DssmError<E>>,
    >::Pending(DssmCommand { command, phase })
}

proof fn lemma_go<E>(
    command: u32,
    events: Seq<Event<E>>,
    phase: Phase<E>,
    event: Event<E>,
    next: Phase<E>,
)
    requires
        leads_to(command, events, phase),
        (DssmCommand { command, phase }).expects(event),
        (DssmCommand { command, phase }).step(event) == Progress::<
            DssmCommand<E>,
            Result<(), DssmError<E>>,
        >::Pending(DssmCommand { command, phase: next }),
    ensures
        leads_to(command, events.push(event), next),
{
    reveal(leads_to);
    crate::machine::lemma_push(super::laws::begin::<E>(command), events, event);
}

proof fn lemma_attempt<E>(
    command: u32,
    stale_data: Event<E>,
    stale_status: Event<E>,
    link: Event<E>,
    since: u128,
    rcr: u32,
)
    requires
        stale_data is Value || stale_data is Failed,
        stale_status is Value || stale_status is Failed,
        link is Done || link is Failed,
        super::response::rx_valid(rcr),
    ensures
        leads_to(
            command,
            attempt(stale_data, stale_status, link, since, rcr),
            Phase::Poll(PollResponse { command, stage: PollStage::Response { rcr } }),
        ),
{
    let poll = |stage: PollStage| Phase::<E>::Poll(PollResponse { command, stage });
    let s0 = Seq::<Event<E>>::empty();
    assert(leads_to(command, s0, Phase::WriteCommand)) by {
        reveal(leads_to);
    }
    let s1 = s0.push(Event::Done);
    lemma_go(command, s0, Phase::WriteCommand, Event::Done, Phase::WritePayload);
    let s2 = s1.push(Event::Done);
    lemma_go(command, s1, Phase::WritePayload, Event::Done, Phase::ClearData);
    let s3 = s2.push(stale_data);
    lemma_go(command, s2, Phase::ClearData, stale_data, Phase::ClearStatus);
    let s4 = s3.push(stale_status);
    lemma_go(command, s3, Phase::ClearStatus, stale_status, Phase::Latch);
    let s5 = s4.push(Event::Done);
    lemma_go(command, s4, Phase::Latch, Event::Done, Phase::Reset(ToggleReset::Assert));
    let s6 = s5.push(Event::Done);
    lemma_go(command, s5, Phase::Reset(ToggleReset::Assert), Event::Done, Phase::Reset(ToggleReset::Hold));
    let s7 = s6.push(Event::Done);
    lemma_go(command, s6, Phase::Reset(ToggleReset::Hold), Event::Done, Phase::Reset(ToggleReset::Release));
    let s8 = s7.push(Event::Done);
    lemma_go(command, s7, Phase::Reset(ToggleReset::Release), Event::Done, Phase::Reset(ToggleReset::Settle));
    let s9 = s8.push(Event::Done);
    lemma_go(command, s8, Phase::Reset(ToggleReset::Settle), Event::Done, Phase::Suppress);
    let s10 = s9.push(Event::Done);
    lemma_go(command, s9, Phase::Suppress, Event::Done, poll(PollStage::Reconnect));
    let s11 = s10.push(link);
    lemma_go(command, s10, poll(PollStage::Reconnect), link, poll(PollStage::StartClock));
    let s12 = s11.push(Event::Clock(since));
    lemma_go(command, s11, poll(PollStage::StartClock), Event::Clock(since), poll(PollStage::Status { since }));
    let s13 = s12.push(Event::Value(rcr));
    lemma_go(command, s12, poll(PollStage::Status { since }), Event::Value(rcr), poll(PollStage::Response { rcr }));
    assert(attempt(stale_data, stale_status, link, since, rcr) =~= s13);
}

/// A command that the device cooperates on and acknowledges succeeds.
pub proof fn law_cooperation<E>(
    command: u32,
    stale_data: Event<E>,
    stale_status: Event<E>,
    link: Event<E>,
    since: u128,
    rcr: u32,
)
    requires
        stale_data is Value || stale_data is Failed,
        stale_status is Value || stale_status is Failed,
        link is Done || link is Failed,
        super::response::rx_valid(rcr),
        super::response::acknowledges(command, rcr, DSSM_RESPONSE_SUCCESS),
    ensures
        crate::machine::is_run(
            super::laws::begin::<E>(command),
            cooperation(stale_data, stale_status, link, since, rcr),
        ),
        crate::machine::after(
            super::laws::begin::<E>(command),
            cooperation(stale_data, stale_status, link, since, rcr),
        ) == Progress::<DssmCommand<E>, Result<(), DssmError<E>>>::Finished(Ok(())),
{
    let events = attempt(stale_data, stale_status, link, since, rcr);
    lemma_attempt(command, stale_data, stale_status, link, since, rcr);
    reveal(leads_to);
    law_response(command, events, rcr, DSSM_RESPONSE_SUCCESS);
}

/// The response decides. One that acknowledges the command makes for a success
/// as soon as the recovery is resumed and nRST was toggled; any other makes for
/// a failure as soon as the recovery is resumed.
pub proof fn law_response<E>(command: u32, events: Seq<Event<E>>, rcr: u32, rxd: u32)
    requires
        crate::machine::is_run(super::laws::begin::<E>(command), events),
        crate::machine::after(super::laws::begin::<E>(command), events) == Progress::<
            DssmCommand<E>,
            Result<(), DssmError<E>>,
        >::Pending(
            DssmCommand {
                command,
                phase: Phase::Poll(PollResponse { command, stage: PollStage::Response { rcr } }),
            },
        ),
    ensures
        super::response::acknowledges(command, rcr, rxd) ==> {
            let full = events.push(Event::Value(rxd)) + all_done(7);
            &&& crate::machine::is_run(super::laws::begin::<E>(command), full)
            &&& crate::machine::after(super::laws::begin::<E>(command), full) == Progress::<
                DssmCommand<E>,
                Result<(), DssmError<E>>,
            >::Finished(Ok(()))
        },
        super::response::verdict(command, rcr, rxd) matches Err(rejection) ==> {
            let full = events.push(Event::Value(rxd)) + all_done(1);
            &&& crate::machine::is_run(super::laws::begin::<E>(command), full)
            &&& crate::machine::after(super::laws::begin::<E>(command), full) == Progress::<
                DssmCommand<E>,
                Result<(), DssmError<E>>,
            >::Finished(Err(DssmError::Rejected(rejection)))
        },
{
    let begin = super::laws::begin::<E>(command);
    let s0 = events.push(Event::Value(rxd));
    let s1 = s0.push(Event::Done);
    let s2 = s1.push(Event::Done);
    let s3 = s2.push(Event::Done);
    let s4 = s3.push(Event::Done);
    let s5 = s4.push(Event::Done);
    let s6 = s5.push(Event::Done);
    let s7 = s6.push(Event::Done);
    crate::machine::lemma_push(begin, events, Event::Value(rxd));
    crate::machine::lemma_push(begin, s0, Event::Done);
    crate::machine::lemma_push(begin, s1, Event::Done);
    crate::machine::lemma_push(begin, s2, Event::Done);
    crate::machine::lemma_push(begin, s3, Event::Done);
    crate::machine::lemma_push(begin, s4, Event::Done);
    crate::machine::lemma_push(begin, s5, Event::Done);
    crate::machine::lemma_push(begin, s6, Event::Done);
    assert(s1 =~= s0 + all_done(1));
    assert(s7 =~= s0 + all_done(7));
}

/// An execution whose time is up ends with a timeout, whatever the boot
/// diagnostic shows, or whether it can be read at all.
pub proof fn law_timeout<E>(
    command: u32,
    events: Seq<Event<E>>,
    since: u128,
    now: u128,
    bootdiag: Event<E>,
)
    requires
        crate::machine::is_run(super::laws::begin::<E>(command), events),
        crate::machine::after(super::laws::begin::<E>(command), events) == Progress::<
            DssmCommand<E>,
            Result<(), DssmError<E>>,
        >::Pending(
            DssmCommand {
                command,
                phase: Phase::Poll(PollResponse { command, stage: PollStage::Deadline { since } }),
            },
        ),
        super::poll::timed_out(since, now),
        bootdiag is Value || bootdiag is Failed,
    ensures
        ({
            let reported: nat = if bootdiag is Value { 1 } else { 0 };
            let full = events.push(Event::Clock(now)).push(bootdiag) + all_done(reported + 1);
            &&& crate::machine::is_run(super::laws::begin::<E>(command), full)
            &&& crate::machine::after(super::laws::begin::<E>(command), full) == Progress::<
                DssmCommand<E>,
                Result<(), DssmError<E>>,
            >::Finished(Err(DssmError::Timeout))
        }),
{
    let begin = super::laws::begin::<E>(command);
    let s0 = events.push(Event::Clock(now));
    let s1 = s0.push(bootdiag);
    let s2 = s1.push(Event::Done);
    let s3 = s2.push(Event::Done);
    crate::machine::lemma_push(begin, events, Event::Clock(now));
    crate::machine::lemma_push(begin, s0, bootdiag);
    crate::machine::lemma_push(begin, s1, Event::Done);
    crate::machine::lemma_push(begin, s2, Event::Done);
    assert(s2 =~= s1 + all_done(1));
    assert(s3 =~= s1 + all_done(2));
}

/// Whether the clock runs: it never goes back, and while the execution sleeps
/// it advances by at least that time.
pub open spec fn clock_runs<E>(actions: Seq<Action>, events: Seq<Event<E>>) -> bool {
    &&& forall|i: int, k: int|
        0 <= i < k < events.len() && (#[trigger] events[i]) is Clock && (#[trigger] events[k])
            is Clock ==> events[i]->Clock_0 <= events[k]->Clock_0
    &&& forall|i: int, j: int, k: int|
        0 <= i < j < k < events.len() && (#[trigger] events[i]) is Clock && (
        #[trigger] actions[j]) is Sleep && (#[trigger] events[k]) is Clock
            ==> events[i]->Clock_0 + actions[j]->Sleep_0 * 1_000_000 <= events[k]->Clock_0
}

/// How often an execution paused between polls.
spec fn pauses(actions: Seq<Action>) -> nat
    decreases actions.len(),
{
    if actions.len() == 0 {
        0
    } else if actions.last() == Action::Sleep(RESPONSE_POLL_INTERVAL) {
        pauses(actions.drop_last()) + 1
    } else {
        pauses(actions.drop_last())
    }
}

/// The clock was read at `l`, before the pause at `p`, and showed at least
/// `low`.
spec fn read_before_pause<E>(
    actions: Seq<Action>,
    events: Seq<Event<E>>,
    l: int,
    p: int,
    low: int,
) -> bool {
    &&& 0 <= l < p < events.len()
    &&& events[l] is Clock
    &&& events[l]->Clock_0 >= low
    &&& actions[p] == Action::Sleep(RESPONSE_POLL_INTERVAL)
}

/// How long ago the clock was last read, as far as the pauses tell.
spec fn pace<E>(actions: Seq<Action>, events: Seq<Event<E>>, since: u128) -> bool {
    let c = pauses(actions);
    &&& 12 <= events.len()
    &&& events[11] == Event::<E>::Clock(since)
    &&& c > 0 ==> exists|l: int, p: int| #[trigger]
        read_before_pause(actions, events, l, p, since + (c - 1) * 10_000_000)
}

/// How long the execution can be at most, wherever it stands.
spec fn bounded<E>(
    progress: Progress<DssmCommand<E>, Result<(), DssmError<E>>>,
    actions: Seq<Action>,
    events: Seq<Event<E>>,
) -> bool {
    let c = pauses(actions);
    let n = events.len();
    &&& actions.len() == n
    &&& c <= 200
    &&& match progress {
        Progress::Pending(m) => {
            &&& super::laws::opening_position(m.phase) matches Some(k) ==> c == 0 && n == k
            &&& super::laws::closing_position(m.phase) matches Some(k) ==> n <= 15 + 4 * c + k
            &&& match m.phase {
                Phase::Poll(poll) => match poll.stage {
                    PollStage::Reconnect | PollStage::StartClock => true,
                    PollStage::Status { since } => n <= 12 + 4 * c && pace(actions, events, since),
                    PollStage::ReconnectAgain { since } => n <= 13 + 4 * c && pace(
                        actions,
                        events,
                        since,
                    ),
                    PollStage::Deadline { since } => n <= 14 + 4 * c && pace(
                        actions,
                        events,
                        since,
                    ),
                    PollStage::Pause { since } => {
                        &&& 12 <= n <= 15 + 4 * c
                        &&& c < 200
                        &&& events[11] == Event::<E>::Clock(since)
                        &&& events.last() is Clock
                        &&& events.last()->Clock_0 >= since + c * 10_000_000
                    },
                    PollStage::Response { .. } => n <= 13 + 4 * c,
                    PollStage::Diagnose => n <= 15 + 4 * c,
                    PollStage::Report(_) => n <= 16 + 4 * c,
                },
                Phase::Resume(Ok(())) => n <= 14 + 4 * c,
                Phase::Resume(Err(_)) => n <= 17 + 4 * c,
                _ => true,
            }
        },
        Progress::Finished(_) => n <= 21 + 4 * c,
    }
}

proof fn lemma_pace_push<E>(
    actions: Seq<Action>,
    events: Seq<Event<E>>,
    since: u128,
    action: Action,
    event: Event<E>,
)
    requires
        actions.len() == events.len(),
        pace(actions, events, since),
        action != Action::Sleep(RESPONSE_POLL_INTERVAL),
    ensures
        pace(actions.push(action), events.push(event), since),
        pauses(actions.push(action)) == pauses(actions),
{
    assert(actions.push(action).drop_last() =~= actions);
    let c = pauses(actions);
    if c > 0 {
        let low = since + (c - 1) * 10_000_000;
        let (l, p) = choose|l: int, p: int| #[trigger]
            read_before_pause(actions, events, l, p, low);
        assert(read_before_pause(actions.push(action), events.push(event), l, p, low));
    }
}

proof fn lemma_bounded_step<E>(
    m: DssmCommand<E>,
    actions: Seq<Action>,
    events: Seq<Event<E>>,
    event: Event<E>,
)
    requires
        bounded(Progress::Pending(m), actions, events),
        m.expects(event),
        clock_runs(actions.push(m.pending()), events.push(event)),
    ensures
        bounded(m.step(event), actions.push(m.pending()), events.push(event)),
{
    let action = m.pending();
    let c = pauses(actions);
    let longer = actions.push(action);
    let told = events.push(event);
    assert(longer.drop_last() =~= actions);
    if let Phase::Poll(poll) = m.phase {
        match poll.stage {
            PollStage::Status { since } | PollStage::ReconnectAgain { since } => {
                lemma_pace_push(actions, events, since, action, event);
            },
            PollStage::Deadline { since } => {
                lemma_pace_push(actions, events, since, action, event);
                let n = events.len() as int;
                assert(told[11] is Clock && told[n] is Clock);
                if c > 0 {
                    let low = since + (c - 1) * 10_000_000;
                    let (l, p) = choose|l: int, p: int| #[trigger]
                        read_before_pause(actions, events, l, p, low);
                    assert(told[l] is Clock && longer[p] is Sleep);
                }
            },
            PollStage::Pause { since } => {
                let n = events.len() as int;
                let low = since + (pauses(longer) - 1) * 10_000_000;
                assert(read_before_pause(longer, told, n - 1, n, low));
            },
            _ => {},
        }
    }
}

proof fn lemma_bounded<E>(command: u32, events: Seq<Event<E>>)
    requires
        crate::machine::is_run(super::laws::begin::<E>(command), events),
        clock_runs(crate::machine::trace(super::laws::begin::<E>(command), events), events),
    ensures
        bounded(
            crate::machine::after(super::laws::begin::<E>(command), events),
            crate::machine::trace(super::laws::begin::<E>(command), events),
            events,
        ),
    decreases events.len(),
{
    let begin = super::laws::begin::<E>(command);
    if events.len() > 0 {
        let earlier = events.drop_last();
        let m = crate::machine::after(begin, earlier)->Pending_0;
        let actions = crate::machine::trace(begin, earlier);
        super::laws::law_opening(command, earlier);
        let longer = actions.push(m.pending());
        assert(events =~= earlier.push(events.last()));
        assert forall|i: int, k: int|
            0 <= i < k < earlier.len() && (#[trigger] earlier[i]) is Clock && (
            #[trigger] earlier[k]) is Clock implies earlier[i]->Clock_0
            <= earlier[k]->Clock_0 by {
            assert(events[i] is Clock && events[k] is Clock);
        }
        assert forall|i: int, j: int, k: int|
            0 <= i < j < k < earlier.len() && (#[trigger] earlier[i]) is Clock && (
            #[trigger] actions[j]) is Sleep && (#[trigger] earlier[k])
                is Clock implies earlier[i]->Clock_0 + actions[j]->Sleep_0 * 1_000_000
            <= earlier[k]->Clock_0 by {
            assert(events[i] is Clock && longer[j] is Sleep && events[k] is Clock);
        }
        lemma_bounded(command, earlier);
        lemma_bounded_step(m, actions, earlier, events.last());
    }
}

/// Every execution comes to an end, as long as the clock runs: besides the
/// opening there are at most four actions for each poll interval that fits in
/// the time a response may take, and the nine that fetch the response and
/// close.
pub proof fn law_termination<E>(command: u32, events: Seq<Event<E>>)
    requires
        crate::machine::is_run(super::laws::begin::<E>(command), events),
        clock_runs(crate::machine::trace(super::laws::begin::<E>(command), events), events),
    ensures
        events.len() <= 12 + 4 * (RESPONSE_TIMEOUT / RESPONSE_POLL_INTERVAL) + 9,
{
    lemma_bounded(command, events);
}

} // verus!
