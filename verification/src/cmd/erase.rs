//! Erasing the flash.

use super::{erases_by_factory_reset, ProbeOptions};
use crate::machine::{Machine, Progress};
use vstd::prelude::*;

verus! {

/// The erase command.
#[derive(Debug, PartialEq, Eq)]
pub struct Cmd<P> {
    /// How to select and reach the target.
    pub common: ProbeOptions<P>,
    /// Show no progress bars.
    pub disable_progressbars: bool,
    /// Whether to read the RTT output from the flash loader, if available.
    pub read_flasher_rtt: bool,
    /// On TI MSPM0 devices, erase via a DSSM factory reset instead.
    ///
    /// This erases the main and non-main flash and clears the debug security
    /// settings, which also recovers locked devices. Requires the probe's
    /// nRESET pin to be wired to the target.
    pub chip_erase: bool,
}

/// One thing to do over the connection to the probe.
#[derive(Debug, PartialEq, Eq)]
pub enum Action<P> {
    /// Attach to the target.
    AttachProbe {
        /// How to select and reach it.
        probe_options: ProbeOptions<P>,
        /// The target that an image names, if there is one to go by.
        image_target: Option<String>,
        /// Let the target run once it is attached.
        resume_target: bool,
        /// Run a factory reset while attaching.
        factory_reset: bool,
    },
    /// Erase the flash by the flash loader.
    EraseAll {
        /// Read the RTT output from the flash loader.
        read_flasher_rtt: bool,
        /// Show the progress of the flash loader.
        progress_bars: bool,
    },
}

/// How an action went. `E` is the error type of the connection.
#[derive(Debug, PartialEq, Eq)]
pub enum Event<E> {
    /// The target is attached.
    Attached,
    /// The flash is erased.
    Erased,
    /// It failed.
    Failed(E),
}

/// What is left of an erase once its pending action is done.
#[derive(Clone, Copy, Debug, PartialEq, Eq)]
pub enum Run {
    /// Attaching.
    Attaching {
        /// Attaching runs a factory reset.
        factory_reset: bool,
        /// Read the RTT output from the flash loader.
        read_flasher_rtt: bool,
        /// Show no progress bars.
        disable_progressbars: bool,
    },
    /// Erasing.
    Erasing,
}

/// An erase that waits for an action.
#[derive(Debug, PartialEq, Eq)]
pub struct Call<P> {
    /// The action.
    pub action: Action<P>,
    /// What to go on with.
    pub run: Run,
}

impl Run {
    /// Whether `event` can be the event of the pending action.
    pub open spec fn answered_by<E>(self, event: Event<E>) -> bool {
        event is Failed || match self {
            Run::Attaching { .. } => event is Attached,
            Run::Erasing => event is Erased,
        }
    }

    /// Where the erase goes on the event of the pending action. A failure ends
    /// it, and so does a factory reset: that already erased everything.
    pub open spec fn following<P, E>(self, event: Event<E>) -> Progress<Call<P>, Result<(), E>>
        recommends
            self.answered_by(event),
    {
        if event is Failed {
            Progress::Finished(Err(event->Failed_0))
        } else {
            match self {
                Run::Attaching { factory_reset, read_flasher_rtt, disable_progressbars } => {
                    if factory_reset {
                        Progress::Finished(Ok(()))
                    } else {
                        Progress::Pending(
                            Call {
                                action: Action::EraseAll {
                                    read_flasher_rtt,
                                    progress_bars: !disable_progressbars,
                                },
                                run: Run::Erasing,
                            },
                        )
                    }
                },
                Run::Erasing => Progress::Finished(Ok(())),
            }
        }
    }
}

impl<P, E> Machine<Event<E>> for Call<P> {
    type Action = Action<P>;

    type Outcome = Result<(), E>;

    open spec fn pending(self) -> Action<P> {
        self.action
    }

    open spec fn expects(self, event: Event<E>) -> bool {
        self.run.answered_by(event)
    }

    open spec fn step(self, event: Event<E>) -> Progress<Call<P>, Result<(), E>> {
        if self.run.answered_by(event) {
            self.run.following(event)
        } else {
            Progress::Pending(self)
        }
    }
}

impl<P> Cmd<P> {
    /// Whether the erase is a factory reset.
    pub open spec fn factory_reset(self) -> bool {
        super::wants_factory_reset(self.common.chip, self.chip_erase)
    }

    /// Where the erase begins: it attaches, with a factory reset if that is how
    /// the chip is erased, going by no image, and without having the target
    /// resumed.
    pub open spec fn begin(self) -> Call<P> {
        Call {
            action: Action::AttachProbe {
                probe_options: self.common,
                image_target: None,
                resume_target: false,
                factory_reset: self.factory_reset(),
            },
            run: Run::Attaching {
                factory_reset: self.factory_reset(),
                read_flasher_rtt: self.read_flasher_rtt,
                disable_progressbars: self.disable_progressbars,
            },
        }
    }

    /// Begins the erase.
    pub fn run(self) -> (call: Call<P>)
        ensures
            call == self.begin(),
    {
        let factory_reset = erases_by_factory_reset(&self.common.chip, self.chip_erase);
        Call {
            action: Action::AttachProbe {
                probe_options: self.common,
                image_target: None,
                resume_target: false,
                factory_reset,
            },
            run: Run::Attaching {
                factory_reset,
                read_flasher_rtt: self.read_flasher_rtt,
                disable_progressbars: self.disable_progressbars,
            },
        }
    }
}

impl Run {
    /// Tells whether `event` can be the event of the pending action.
    pub fn accepts<E>(&self, event: &Event<E>) -> (result: bool)
        ensures
            result == self.answered_by(*event),
    {
        match (self, event) {
            (_, Event::Failed(_)) => true,
            (Run::Attaching { .. }, Event::Attached) => true,
            (Run::Erasing, Event::Erased) => true,
            _ => false,
        }
    }

    /// Goes on with the event of the pending action.
    pub fn next<P, E>(self, event: Event<E>) -> (progress: Progress<Call<P>, Result<(), E>>)
        requires
            self.answered_by(event),
        ensures
            progress == self.following::<P, E>(event),
    {
        match (self, event) {
            (_, Event::Failed(error)) => Progress::Finished(Err(error)),
            (Run::Attaching { factory_reset, read_flasher_rtt, disable_progressbars }, _) => {
                if factory_reset {
                    // The DSSM factory reset already erased everything.
                    return Progress::Finished(Ok(()));
                }
                Progress::Pending(
                    Call {
                        action: Action::EraseAll {
                            read_flasher_rtt,
                            progress_bars: !disable_progressbars,
                        },
                        run: Run::Erasing,
                    },
                )
            },
            (Run::Erasing, _) => Progress::Finished(Ok(())),
        }
    }
}

} // verus!
