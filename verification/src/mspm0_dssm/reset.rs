//! Toggling nRST.

use super::bus::{Action, Event};
use super::{NRST_ASSERT, RESET_SETTLE, SWJ_PIN_NRESET};
use crate::machine::{Machine, Progress};
use vstd::prelude::*;

verus! {

/// Assert nRST for a short time, then release it.
///
/// The device boots the ROM (which processes any pending DSSM command) as nRST
/// is released.
#[derive(Clone, Copy, Debug, PartialEq, Eq)]
pub enum ToggleReset {
    /// nRST is being pulled low.
    Assert,
    /// nRST is held low.
    Hold,
    /// nRST is being released.
    Release,
    /// The device boots.
    Settle,
}

impl ToggleReset {
    /// What happens in this stage.
    pub open spec fn call(self) -> Action {
        match self {
            ToggleReset::Assert => Action::assert_reset(),
            ToggleReset::Hold => Action::Sleep(NRST_ASSERT),
            ToggleReset::Release => Action::release_reset(),
            ToggleReset::Settle => Action::Sleep(RESET_SETTLE),
        }
    }
}

impl<E> Machine<Event<E>> for ToggleReset {
    type Action = Action;

    type Outcome = Result<(), E>;

    open spec fn pending(self) -> Action {
        self.call()
    }

    open spec fn expects(self, event: Event<E>) -> bool {
        self.call().answered_by(event)
    }

    open spec fn step(self, event: Event<E>) -> Progress<ToggleReset, Result<(), E>> {
        if !self.expects(event) {
            Progress::Pending(self)
        } else if event is Failed {
            Progress::Finished(Err(event->Failed_0))
        } else {
            match self {
                ToggleReset::Assert => Progress::Pending(ToggleReset::Hold),
                ToggleReset::Hold => Progress::Pending(ToggleReset::Release),
                ToggleReset::Release => Progress::Pending(ToggleReset::Settle),
                ToggleReset::Settle => Progress::Finished(Ok(())),
            }
        }
    }
}

/// Begins to toggle nRST.
pub fn toggle_reset() -> (toggle: ToggleReset)
    ensures
        toggle == ToggleReset::Assert,
{
    ToggleReset::Assert
}

impl ToggleReset {
    /// The action to perform now.
    pub fn action(&self) -> (action: Action)
        ensures
            action == self.call(),
            action == Machine::<Event<()>>::pending(*self),
    {
        match self {
            ToggleReset::Assert => Action::SwjPins { output: 0, select: SWJ_PIN_NRESET, wait: 0 },
            ToggleReset::Hold => Action::Sleep(NRST_ASSERT),
            ToggleReset::Release => Action::SwjPins {
                output: SWJ_PIN_NRESET,
                select: SWJ_PIN_NRESET,
                wait: 0,
            },
            ToggleReset::Settle => Action::Sleep(RESET_SETTLE),
        }
    }

    /// Goes on with the event of the action.
    pub fn next<E>(self, event: Event<E>) -> (progress: Progress<ToggleReset, Result<(), E>>)
        ensures
            progress == self.step(event),
    {
        match (self, event) {
            (ToggleReset::Assert, Event::Done) => Progress::Pending(ToggleReset::Hold),
            (ToggleReset::Assert, Event::Failed(error)) => Progress::Finished(Err(error)),
            (ToggleReset::Hold, Event::Done) => Progress::Pending(ToggleReset::Release),
            (ToggleReset::Release, Event::Done) => Progress::Pending(ToggleReset::Settle),
            (ToggleReset::Release, Event::Failed(error)) => Progress::Finished(Err(error)),
            (ToggleReset::Settle, Event::Done) => Progress::Finished(Ok(())),
            _ => Progress::Pending(self),
        }
    }
}

/// Every answer to its action is expected of a toggle, and any other event
/// leaves it where it is.
pub proof fn law_expects_answers<E>(toggle: ToggleReset, event: Event<E>)
    ensures
        Machine::<Event<E>>::pending(toggle) == toggle.call(),
        toggle.expects(event) <==> toggle.call().answered_by(event),
        !toggle.call().answered_by(event) ==> toggle.step(event) == Progress::<
            ToggleReset,
            Result<(), E>,
        >::Pending(toggle),
{
}

/// A toggle pulls nRST low, holds it for 100 ms, releases it, and gives the
/// device 100 ms to boot. A pin that cannot be driven ends it there and is
/// reported; without that it succeeds as soon as all is done.
pub proof fn law_toggle<E>(events: Seq<Event<E>>)
    requires
        crate::machine::is_run(ToggleReset::Assert, events),
    ensures
        ({
            let wire = seq![
                Action::SwjPins { output: 0, select: 0x80, wait: 0 },
                Action::Sleep(100),
                Action::SwjPins { output: 0x80, select: 0x80, wait: 0 },
                Action::Sleep(100),
            ];
            let n = events.len() as int;
            let failed = n > 0 && events.last() is Failed;
            &&& n <= 4
            &&& crate::machine::trace(ToggleReset::Assert, events) == wire.take(n)
            &&& match crate::machine::after(ToggleReset::Assert, events) {
                Progress::Pending(toggle) => !failed && n < 4 && toggle.call() == wire[n],
                Progress::Finished(Ok(())) => !failed && n == 4,
                Progress::Finished(Err(error)) => failed && error == events.last()->Failed_0,
            }
        }),
{
    lemma_toggle(events);
}

proof fn lemma_toggle<E>(events: Seq<Event<E>>)
    requires
        crate::machine::is_run(ToggleReset::Assert, events),
    ensures
        ({
            let stages = seq![
                ToggleReset::Assert,
                ToggleReset::Hold,
                ToggleReset::Release,
                ToggleReset::Settle,
            ];
            let wire = seq![
                Action::SwjPins { output: 0, select: 0x80, wait: 0 },
                Action::Sleep(100),
                Action::SwjPins { output: 0x80, select: 0x80, wait: 0 },
                Action::Sleep(100),
            ];
            let n = events.len() as int;
            let failed = n > 0 && events.last() is Failed;
            &&& n <= 4
            &&& crate::machine::trace(ToggleReset::Assert, events) =~= wire.take(n)
            &&& match crate::machine::after(ToggleReset::Assert, events) {
                Progress::Pending(toggle) => !failed && n < 4 && toggle == stages[n]
                    && toggle.call() == wire[n],
                Progress::Finished(Ok(())) => !failed && n == 4,
                Progress::Finished(Err(error)) => failed && error == events.last()->Failed_0,
            }
        }),
    decreases events.len(),
{
    if events.len() > 0 {
        lemma_toggle(events.drop_last());
    }
}

} // verus!
