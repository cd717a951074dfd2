//! Downloading a file to the flash.

use super::{erases_by_factory_reset, ProbeOptions};
use crate::machine::{Machine, Progress};
use vstd::prelude::*;

verus! {

/// How to write the flash. `D` is whatever else there is to know.
#[derive(Debug, PartialEq, Eq)]
pub struct BinaryDownloadOptions<D> {
    /// Erase the whole chip before writing.
    pub chip_erase: bool,
    /// Everything that plays no role here.
    pub rest: D,
}

/// The download command.
///
/// `Q` is the type of a path, `F` says how to read the file.
#[derive(Debug, PartialEq, Eq)]
pub struct Cmd<P, Q, D, F> {
    /// How to select and reach the target.
    pub probe_options: ProbeOptions<P>,
    /// The path to the file to be downloaded to the flash.
    pub path: Q,
    /// How to write the flash.
    pub download_options: BinaryDownloadOptions<D>,
    /// How to read the file.
    pub format_options: F,
    /// Start the firmware after the download.
    ///
    /// The target gets a reset only if the firmware needs one to start.
    pub start: bool,
}

/// One thing to do over the connection to the probe. `B` is what a flashed
/// image needs to boot.
#[derive(Debug, PartialEq, Eq)]
pub enum Action<P, Q, D, F, B> {
    /// Attach to the target.
    AttachProbe {
        /// How to select and reach it.
        probe_options: ProbeOptions<P>,
        /// The target that an image names, if there is one to go by.
        image_target: Option<String>,
        /// Let the target run once it is attached.
        resume_target: bool,
        /// Run a factory reset while attaching.
        factory_reset: bool,
    },
    /// Write the file to the flash.
    Flash {
        /// The path to the file.
        path: Q,
        /// How to read it.
        format_options: F,
        /// How to write the flash.
        download_options: BinaryDownloadOptions<D>,
        /// The RTT client to hand the output of the flash loader to, if any.
        rtt_client: Option<u64>,
        /// The target that an image names, if there is one to go by.
        image_target: Option<String>,
    },
    /// Start the firmware.
    Boot {
        /// What the image needs to boot.
        boot_info: B,
        /// The core to start.
        core: usize,
    },
}

/// How an action went. `E` is the error type of the connection.
#[derive(Debug, PartialEq, Eq)]
pub enum Event<B, E> {
    /// The target is attached.
    Attached,
    /// The file is in the flash.
    Flashed(B),
    /// The firmware was started.
    Booted,
    /// It failed.
    Failed(E),
}

/// What is left of a download once its pending action is done.
#[derive(Debug, PartialEq, Eq)]
pub enum Run<Q, D, F> {
    /// Attaching; the file is still to be flashed.
    Attaching {
        /// The path to the file.
        path: Q,
        /// How to write the flash.
        download_options: BinaryDownloadOptions<D>,
        /// How to read the file.
        format_options: F,
        /// Start the firmware in the end.
        start: bool,
    },
    /// Flashing.
    Flashing {
        /// Start the firmware in the end.
        start: bool,
    },
    /// Booting.
    Booting,
}

/// A download that waits for an action.
#[derive(Debug, PartialEq, Eq)]
pub struct Call<P, Q, D, F, B> {
    /// The action.
    pub action: Action<P, Q, D, F, B>,
    /// What to go on with.
    pub run: Run<Q, D, F>,
}

impl<Q, D, F> Run<Q, D, F> {
    /// Whether `event` can be the event of the pending action.
    pub open spec fn answered_by<B, E>(self, event: Event<B, E>) -> bool {
        event is Failed || match self {
            Run::Attaching { .. } => event is Attached,
            Run::Flashing { .. } => event is Flashed,
            Run::Booting => event is Booted,
        }
    }

    /// Where the download goes on the event of the pending action. A failure
    /// ends it.
    pub open spec fn following<P, B, E>(self, event: Event<B, E>) -> Progress<
        Call<P, Q, D, F, B>,
        Result<(), E>,
    >
        recommends
            self.answered_by(event),
    {
        if event is Failed {
            Progress::Finished(Err(event->Failed_0))
        } else {
            match self {
                Run::Attaching { path, download_options, format_options, start } => {
                    Progress::Pending(
                        Call {
                            action: Action::Flash {
                                path,
                                format_options,
                                download_options,
                                rtt_client: None,
                                image_target: None,
                            },
                            run: Run::Flashing { start },
                        },
                    )
                },
                Run::Flashing { start } => if start {
                    Progress::Pending(
                        Call {
                            action: Action::Boot { boot_info: event->Flashed_0, core: 0 },
                            run: Run::Booting,
                        },
                    )
                } else {
                    Progress::Finished(Ok(()))
                },
                Run::Booting => Progress::Finished(Ok(())),
            }
        }
    }
}

impl<P, Q, D, F, B, E> Machine<Event<B, E>> for Call<P, Q, D, F, B> {
    type Action = Action<P, Q, D, F, B>;

    type Outcome = Result<(), E>;

    open spec fn pending(self) -> Action<P, Q, D, F, B> {
        self.action
    }

    open spec fn expects(self, event: Event<B, E>) -> bool {
        self.run.answered_by(event)
    }

    open spec fn step(self, event: Event<B, E>) -> Progress<Call<P, Q, D, F, B>, Result<(), E>> {
        if self.run.answered_by(event) {
            self.run.following(event)
        } else {
            Progress::Pending(self)
        }
    }
}

impl<P, Q, D, F> Cmd<P, Q, D, F> {
    /// Whether the download begins with a factory reset.
    pub open spec fn factory_reset(self) -> bool {
        super::wants_factory_reset(self.probe_options.chip, self.download_options.chip_erase)
    }

    /// Where the download begins: it attaches, with a factory reset if one is
    /// due, going by no image, and without having the target resumed. The flash
    /// loader does not need to erase anything after a factory reset.
    pub open spec fn begin<B>(self) -> Call<P, Q, D, F, B> {
        Call {
            action: Action::AttachProbe {
                probe_options: self.probe_options,
                image_target: None,
                resume_target: false,
                factory_reset: self.factory_reset(),
            },
            run: Run::Attaching {
                path: self.path,
                download_options: BinaryDownloadOptions {
                    chip_erase: self.download_options.chip_erase && !self.factory_reset(),
                    rest: self.download_options.rest,
                },
                format_options: self.format_options,
                start: self.start,
            },
        }
    }

    /// Begins the download.
    pub fn run<B>(self) -> (call: Call<P, Q, D, F, B>)
        ensures
            call == self.begin::<B>(),
    {
        let Cmd { probe_options, path, download_options, format_options, start } = self;
        let mut download_options = download_options;
        let factory_reset = erases_by_factory_reset(
            &probe_options.chip,
            download_options.chip_erase,
        );
        if factory_reset {
            download_options.chip_erase = false;
        }
        Call {
            action: Action::AttachProbe {
                probe_options,
                image_target: None,
                resume_target: false,
                factory_reset,
            },
            run: Run::Attaching { path, download_options, format_options, start },
        }
    }
}

impl<Q, D, F> Run<Q, D, F> {
    /// Tells whether `event` can be the event of the pending action.
    pub fn accepts<B, E>(&self, event: &Event<B, E>) -> (result: bool)
        ensures
            result == self.answered_by(*event),
    {
        match (self, event) {
            (_, Event::Failed(_)) => true,
            (Run::Attaching { .. }, Event::Attached) => true,
            (Run::Flashing { .. }, Event::Flashed(_)) => true,
            (Run::Booting, Event::Booted) => true,
            _ => false,
        }
    }

    /// Goes on with the event of the pending action.
    pub fn next<P, B, E>(self, event: Event<B, E>) -> (progress: Progress<
        Call<P, Q, D, F, B>,
        Result<(), E>,
    >)
        requires
            self.answered_by(event),
        ensures
            progress == self.following::<P, B, E>(event),
    {
        match (self, event) {
            (_, Event::Failed(error)) => Progress::Finished(Err(error)),
            (Run::Attaching { path, download_options, format_options, start }, _) => {
                Progress::Pending(
                    Call {
                        action: Action::Flash {
                            path,
                            format_options,
                            download_options,
                            rtt_client: None,
                            image_target: None,
                        },
                        run: Run::Flashing { start },
                    },
                )
            },
            (Run::Flashing { start }, Event::Flashed(boot_info)) => {
                if start {
                    Progress::Pending(
                        Call { action: Action::Boot { boot_info, core: 0 }, run: Run::Booting },
                    )
                } else {
                    Progress::Finished(Ok(()))
                }
            },
            _ => Progress::Finished(Ok(())),
        }
    }
}

} // verus!
