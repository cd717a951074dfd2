//! Workflows that alternate between deciding and acting.
//!
//! A workflow never touches a probe or a clock. It names one action, waits for
//! the event that tells how the action went, and then either names the next
//! action or finishes. [`Machine`] is the mathematical side of that protocol;
//! each workflow offers the executable side as methods of its own.

use vstd::prelude::*;

verus! {

/// What a workflow does next.
#[derive(Debug, PartialEq, Eq)]
pub enum Progress<M, R> {
    /// The workflow waits for the event of its pending action.
    Pending(M),
    /// The workflow is over, with this outcome.
    Finished(R),
}

/// A workflow driven by events of type `Ev`.
pub trait Machine<Ev>: Sized {
    /// What the workflow asks its driver to do.
    type Action;

    /// What the workflow finishes with.
    type Outcome;

    /// The action whose event the workflow waits for.
    spec fn pending(self) -> Self::Action;

    /// Whether `event` can be the event of the pending action.
    spec fn expects(self, event: Ev) -> bool;

    /// Where the workflow goes on `event`. An event that it does not expect
    /// leaves it where it is.
    spec fn step(self, event: Ev) -> Progress<Self, Self::Outcome>;
}

/// Where a workflow that begins in `begin` stands after `events`.
///
/// Events that come after the end change nothing.
pub open spec fn after<Ev, M: Machine<Ev>>(begin: M, events: Seq<Ev>) -> Progress<M, M::Outcome>
    decreases events.len(),
{
    if events.len() == 0 {
        Progress::Pending(begin)
    } else {
        match after(begin, events.drop_last()) {
            Progress::Pending(m) => m.step(events.last()),
            Progress::Finished(r) => Progress::Finished(r),
        }
    }
}

/// Whether `events` is a run of the workflow that begins in `begin`: at each
/// point the workflow was not over yet and expected the event that came.
pub open spec fn is_run<Ev, M: Machine<Ev>>(begin: M, events: Seq<Ev>) -> bool
    decreases events.len(),
{
    events.len() == 0 || {
        &&& is_run(begin, events.drop_last())
        &&& after(begin, events.drop_last()) matches Progress::Pending(m) && m.expects(
            events.last(),
        )
    }
}

/// The actions performed in a run, one for each event.
pub open spec fn trace<Ev, M: Machine<Ev>>(begin: M, events: Seq<Ev>) -> Seq<M::Action>
    decreases events.len(),
{
    if events.len() == 0 {
        Seq::empty()
    } else {
        match after(begin, events.drop_last()) {
            Progress::Pending(m) => trace(begin, events.drop_last()).push(m.pending()),
            Progress::Finished(_) => trace(begin, events.drop_last()),
        }
    }
}

/// One more event takes a workflow one step further.
pub proof fn lemma_push<Ev, M: Machine<Ev>>(begin: M, events: Seq<Ev>, event: Ev)
    ensures
        after(begin, events.push(event)) == match after(begin, events) {
            Progress::Pending(m) => m.step(event),
            Progress::Finished(r) => Progress::Finished(r),
        },
        is_run(begin, events.push(event)) == {
            &&& is_run(begin, events)
            &&& after(begin, events) matches Progress::Pending(m) && m.expects(event)
        },
        trace(begin, events.push(event)) == match after(begin, events) {
            Progress::Pending(m) => trace(begin, events).push(m.pending()),
            Progress::Finished(_) => trace(begin, events),
        },
{
    assert(events.push(event).drop_last() =~= events);
}

/// A workflow without any event stands where it begins, and has done nothing.
pub proof fn lemma_start<Ev, M: Machine<Ev>>(begin: M)
    ensures
        after(begin, Seq::<Ev>::empty()) == Progress::<M, M::Outcome>::Pending(begin),
        is_run(begin, Seq::<Ev>::empty()),
        trace(begin, Seq::<Ev>::empty()) == Seq::<M::Action>::empty(),
{
}

} // verus!
