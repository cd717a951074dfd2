//! What holds of every download and every erase.

use super::{download, erase};
use crate::machine::{Machine, Progress};
use vstd::prelude::*;

verus! {

/// A command erases by a factory reset only if a chip erase was asked for and a
/// chip was named that does it that way.
pub proof fn law_factory_reset_only_on_demand(chip: Option<String>, chip_erase: bool)
    ensures
        !chip_erase ==> !super::wants_factory_reset(chip, chip_erase),
        chip is None ==> !super::wants_factory_reset(chip, chip_erase),
        chip matches Some(name) && !crate::mspm0_dssm::mspm0_family(name@)
            ==> !super::wants_factory_reset(chip, chip_erase),
{
}

/// A command erases by a factory reset exactly if a chip erase was asked for and
/// the name of the chip begins with the letters `MSPM0` or `MSPS`, whatever
/// follows them.
pub proof fn law_factory_reset_by_name(chip: Option<String>, chip_erase: bool)
    ensures
        super::wants_factory_reset(chip, chip_erase) <==> chip_erase && (chip matches Some(name)
            && (seq!['M', 'S', 'P', 'M', '0'].is_prefix_of(name@) || seq![
            'M',
            'S',
            'P',
            'S',
        ].is_prefix_of(name@))),
        super::chip_is_mspm0(chip) <==> (chip matches Some(name) && (seq![
            'M',
            'S',
            'P',
            'M',
            '0',
        ].is_prefix_of(name@) || seq!['M', 'S', 'P', 'S'].is_prefix_of(name@))),
{
    if let Some(name) = chip {
        crate::mspm0_dssm::law_family_prefixes(name@);
    }
}

/// The same, of a download that is about to begin: it attaches with a factory
/// reset exactly then.
pub proof fn law_download_begins<P, Q, D, F, B, E>(cmd: download::Cmd<P, Q, D, F>)
    ensures
        Machine::<download::Event<B, E>>::pending(cmd.begin::<B>()) == cmd.begin::<B>().action,
        cmd.begin::<B>().action == (download::Action::<P, Q, D, F, B>::AttachProbe {
            probe_options: cmd.probe_options,
            image_target: None,
            resume_target: false,
            factory_reset: cmd.download_options.chip_erase && (
            cmd.probe_options.chip matches Some(name) && (seq![
                'M',
                'S',
                'P',
                'M',
                '0',
            ].is_prefix_of(name@) || seq!['M', 'S', 'P', 'S'].is_prefix_of(name@))),
        }),
        cmd.factory_reset() <==> cmd.download_options.chip_erase && (
        cmd.probe_options.chip matches Some(name) && (seq![
            'M',
            'S',
            'P',
            'M',
            '0',
        ].is_prefix_of(name@) || seq!['M', 'S', 'P', 'S'].is_prefix_of(name@))),
{
    law_factory_reset_by_name(cmd.probe_options.chip, cmd.download_options.chip_erase);
}

/// The same, of an erase that is about to begin.
pub proof fn law_erase_begins<P, E>(cmd: erase::Cmd<P>)
    ensures
        Machine::<erase::Event<E>>::pending(cmd.begin()) == cmd.begin().action,
        cmd.begin().action == (erase::Action::<P>::AttachProbe {
            probe_options: cmd.common,
            image_target: None,
            resume_target: false,
            factory_reset: cmd.chip_erase && (cmd.common.chip matches Some(name) && (seq![
                'M',
                'S',
                'P',
                'M',
                '0',
            ].is_prefix_of(name@) || seq!['M', 'S', 'P', 'S'].is_prefix_of(name@))),
        }),
        cmd.factory_reset() <==> cmd.chip_erase && (cmd.common.chip matches Some(name) && (seq![
            'M',
            'S',
            'P',
            'M',
            '0',
        ].is_prefix_of(name@) || seq!['M', 'S', 'P', 'S'].is_prefix_of(name@))),
{
    law_factory_reset_by_name(cmd.common.chip, cmd.chip_erase);
}

/// What a download expects: any failure, at any time, and else the success of
/// what it waits for. Its action is the one it was given, and it goes where
/// what is left of it says; an event that it does not expect leaves it where it
/// is.
pub proof fn law_download_expects<P, Q, D, F, B, E>(
    call: download::Call<P, Q, D, F, B>,
    event: download::Event<B, E>,
)
    ensures
        Machine::<download::Event<B, E>>::pending(call) == call.action,
        call.expects(event) <==> call.run.answered_by(event),
        event is Failed ==> call.run.answered_by(event),
        event is Attached ==> (call.run.answered_by(event) <==> call.run is Attaching),
        event is Flashed ==> (call.run.answered_by(event) <==> call.run is Flashing),
        event is Booted ==> (call.run.answered_by(event) <==> call.run is Booting),
        call.run.answered_by(event) ==> call.step(event) == call.run.following::<P, B, E>(event),
        !call.run.answered_by(event) ==> call.step(event) == Progress::<
            download::Call<P, Q, D, F, B>,
            Result<(), E>,
        >::Pending(call),
{
}

/// What an erase expects, likewise.
pub proof fn law_erase_expects<P, E>(call: erase::Call<P>, event: erase::Event<E>)
    ensures
        Machine::<erase::Event<E>>::pending(call) == call.action,
        call.expects(event) <==> call.run.answered_by(event),
        event is Failed ==> call.run.answered_by(event),
        event is Attached ==> (call.run.answered_by(event) <==> call.run is Attaching),
        event is Erased ==> (call.run.answered_by(event) <==> call.run is Erasing),
        call.run.answered_by(event) ==> call.step(event) == call.run.following::<P, E>(event),
        !call.run.answered_by(event) ==> call.step(event) == Progress::<
            erase::Call<P>,
            Result<(), E>,
        >::Pending(call),
{
}

/// Downloading and erasing agree on which chips are erased by a factory reset.
pub proof fn law_commands_agree<P, Q, D, F>(download: download::Cmd<P, Q, D, F>, erase: erase::Cmd<P>)
    requires
        download.probe_options.chip == erase.common.chip,
        download.download_options.chip_erase == erase.chip_erase,
    ensures
        download.factory_reset() == erase.factory_reset(),
{
}

/// How the flash is written in a download.
pub open spec fn flash_options<P, Q, D, F>(
    cmd: download::Cmd<P, Q, D, F>,
) -> download::BinaryDownloadOptions<D> {
    download::BinaryDownloadOptions {
        chip_erase: cmd.download_options.chip_erase && !cmd.factory_reset(),
        rest: cmd.download_options.rest,
    }
}

/// A chip erase that was asked for takes place exactly once: by the factory
/// reset or by the flash loader, never by both. One that was not asked for does
/// not take place.
pub proof fn law_erased_once<P, Q, D, F>(cmd: download::Cmd<P, Q, D, F>)
    ensures
        !(cmd.factory_reset() && flash_options(cmd).chip_erase),
        (cmd.factory_reset() || flash_options(cmd).chip_erase) == cmd.download_options.chip_erase,
{
}

/// Everything there is to do in a download: attach, flash the file, and then
/// start the firmware if that was asked for, with what the flashing told. All
/// options but the chip erase are handed on as they came.
pub open spec fn download_plan<P, Q, D, F, B>(
    cmd: download::Cmd<P, Q, D, F>,
    boot_info: B,
) -> Seq<download::Action<P, Q, D, F, B>> {
    let attach = download::Action::AttachProbe {
        probe_options: cmd.probe_options,
        image_target: None,
        resume_target: false,
        factory_reset: cmd.factory_reset(),
    };
    let flash = download::Action::Flash {
        path: cmd.path,
        format_options: cmd.format_options,
        download_options: flash_options(cmd),
        rtt_client: None,
        image_target: None,
    };
    if cmd.start {
        seq![attach, flash, download::Action::Boot { boot_info, core: 0 }]
    } else {
        seq![attach, flash]
    }
}

/// What the flashing told, once it did.
pub open spec fn flashed<B, E>(events: Seq<download::Event<B, E>>) -> B {
    events[1]->Flashed_0
}

/// Where a download stands after `n` events without a failure.
spec fn download_stage<P, Q, D, F>(
    cmd: download::Cmd<P, Q, D, F>,
    n: int,
) -> download::Run<Q, D, F> {
    if n == 0 {
        download::Run::Attaching {
            path: cmd.path,
            download_options: flash_options(cmd),
            format_options: cmd.format_options,
            start: cmd.start,
        }
    } else if n == 1 {
        download::Run::Flashing { start: cmd.start }
    } else {
        download::Run::Booting
    }
}

proof fn lemma_download<P, Q, D, F, B, E>(
    cmd: download::Cmd<P, Q, D, F>,
    events: Seq<download::Event<B, E>>,
)
    requires
        crate::machine::is_run(cmd.begin::<B>(), events),
    ensures
        ({
            let plan = download_plan(cmd, flashed(events));
            let actions = crate::machine::trace(cmd.begin::<B>(), events);
            let n = events.len() as int;
            &&& n <= plan.len()
            &&& actions.len() == n
            &&& forall|i: int| 0 <= i < n ==> #[trigger] actions[i] == plan[i]
            &&& forall|i: int| 0 <= i < n - 1 ==> !((#[trigger] events[i]) is Failed)
            &&& match crate::machine::after(cmd.begin::<B>(), events) {
                Progress::Pending(call) => {
                    &&& n < plan.len()
                    &&& n > 0 ==> !(events.last() is Failed)
                    &&& n > 1 ==> events[1] is Flashed
                    &&& call.action == plan[n]
                    &&& call.run == download_stage(cmd, n)
                },
                Progress::Finished(result) => {
                    &&& n > 0
                    &&& events.last() is Failed || n == plan.len()
                    &&& result == if events.last() is Failed {
                        Err(events.last()->Failed_0)
                    } else {
                        Ok(())
                    }
                },
            }
        }),
    decreases events.len(),
{
    if events.len() > 0 {
        let earlier = events.drop_last();
        lemma_download(cmd, earlier);
        let begin = cmd.begin::<B>();
        let call = crate::machine::after(begin, earlier)->Pending_0;
        let plan = download_plan(cmd, flashed(events));
        let actions = crate::machine::trace(begin, events);
        assert(actions =~= crate::machine::trace(begin, earlier).push(call.action));
        if events.len() == 3 {
            assert(events[1] == earlier[1]);
        }
        assert forall|i: int| 0 <= i < events.len() implies #[trigger] actions[i] == plan[i] by {
            if i < earlier.len() {
                assert(actions[i] == crate::machine::trace(begin, earlier)[i]);
            }
        }
        assert forall|i: int| 0 <= i < events.len() - 1 implies !((#[trigger] events[i])
            is Failed) by {
            assert(events[i] == earlier[i]);
        }
    }
}

/// A download does what its plan says, in that order. A failure ends it there
/// and is reported; without one it succeeds as soon as all is done.
pub proof fn law_download<P, Q, D, F, B, E>(
    cmd: download::Cmd<P, Q, D, F>,
    events: Seq<download::Event<B, E>>,
)
    requires
        crate::machine::is_run(cmd.begin::<B>(), events),
    ensures
        ({
            let plan = download_plan(cmd, flashed(events));
            let n = events.len() as int;
            let failed = n > 0 && events.last() is Failed;
            &&& n <= plan.len()
            &&& crate::machine::trace(cmd.begin::<B>(), events) == plan.take(n)
            &&& match crate::machine::after(cmd.begin::<B>(), events) {
                Progress::Pending(call) => {
                    &&& !failed && n < plan.len()
                    &&& call.action == plan[n]
                    &&& call.run is Attaching <==> call.action is AttachProbe
                    &&& call.run is Flashing <==> call.action is Flash
                    &&& call.run is Booting <==> call.action is Boot
                },
                Progress::Finished(Ok(())) => !failed && n == plan.len(),
                Progress::Finished(Err(error)) => failed && error == events.last()->Failed_0,
            }
        }),
{
    lemma_download(cmd, events);
    assert(crate::machine::trace(cmd.begin::<B>(), events) =~= download_plan(
        cmd,
        flashed(events),
    ).take(events.len() as int));
}

/// Everything there is to do in an erase: attach, and unless that runs a factory
/// reset have the flash loader erase everything.
pub open spec fn erase_plan<P>(cmd: erase::Cmd<P>) -> Seq<erase::Action<P>> {
    let attach = erase::Action::AttachProbe {
        probe_options: cmd.common,
        image_target: None,
        resume_target: false,
        factory_reset: cmd.factory_reset(),
    };
    if cmd.factory_reset() {
        seq![attach]
    } else {
        seq![
            attach,
            erase::Action::EraseAll {
                read_flasher_rtt: cmd.read_flasher_rtt,
                progress_bars: !cmd.disable_progressbars,
            },
        ]
    }
}

proof fn lemma_erase<P, E>(cmd: erase::Cmd<P>, events: Seq<erase::Event<E>>)
    requires
        crate::machine::is_run(cmd.begin(), events),
    ensures
        ({
            let plan = erase_plan(cmd);
            let actions = crate::machine::trace(cmd.begin(), events);
            let n = events.len() as int;
            &&& n <= plan.len()
            &&& actions =~= plan.take(n)
            &&& match crate::machine::after(cmd.begin(), events) {
                Progress::Pending(call) => {
                    &&& n < plan.len()
                    &&& n > 0 ==> !(events.last() is Failed)
                    &&& call.action == plan[n]
                    &&& call.run == if n == 0 {
                        cmd.begin().run
                    } else {
                        erase::Run::Erasing
                    }
                },
                Progress::Finished(result) => {
                    &&& n > 0
                    &&& events.last() is Failed || n == plan.len()
                    &&& result == if events.last() is Failed {
                        Err(events.last()->Failed_0)
                    } else {
                        Ok(())
                    }
                },
            }
        }),
    decreases events.len(),
{
    if events.len() > 0 {
        let earlier = events.drop_last();
        lemma_erase(cmd, earlier);
        let n = earlier.len() as int;
        assert(erase_plan(cmd).take(n).push(erase_plan(cmd)[n]) =~= erase_plan(cmd).take(n + 1));
    }
}

/// An erase does what its plan says, in that order. A failure ends it there and
/// is reported; without one it succeeds as soon as all is done.
pub proof fn law_erase<P, E>(cmd: erase::Cmd<P>, events: Seq<erase::Event<E>>)
    requires
        crate::machine::is_run(cmd.begin(), events),
    ensures
        ({
            let plan = erase_plan(cmd);
            let n = events.len() as int;
            let failed = n > 0 && events.last() is Failed;
            &&& n <= plan.len()
            &&& crate::machine::trace(cmd.begin(), events) == plan.take(n)
            &&& match crate::machine::after(cmd.begin(), events) {
                Progress::Pending(call) => {
                    &&& !failed && n < plan.len()
                    &&& call.action == plan[n]
                    &&& call.run is Attaching <==> call.action is AttachProbe
                    &&& call.run is Erasing <==> call.action is EraseAll
                },
                Progress::Finished(Ok(())) => !failed && n == plan.len(),
                Progress::Finished(Err(error)) => failed && error == events.last()->Failed_0,
            }
        }),
{
    lemma_erase(cmd, events);
}

/// What a download does next, or with what it ends, for whatever came back. Once
/// it is attached the file is flashed, with a chip erase exactly if one was asked
/// for that no factory reset did, and with all else as it was asked for. Once it
/// is flashed the firmware is started on the first core, with what the flashing
/// told, if that was asked for. Any failure ends it, and is reported.
pub proof fn law_download_steps<P, Q, D, F, B, E>(
    cmd: download::Cmd<P, Q, D, F>,
    events: Seq<download::Event<B, E>>,
)
    requires
        crate::machine::is_run(cmd.begin::<B>(), events),
    ensures
        ({
            let by_name = cmd.probe_options.chip matches Some(name) && (seq![
                'M',
                'S',
                'P',
                'M',
                '0',
            ].is_prefix_of(name@) || seq!['M', 'S', 'P', 'S'].is_prefix_of(name@));
            let n = events.len() as int;
            let progress = crate::machine::after(cmd.begin::<B>(), events);
            let next = progress->Pending_0.action;
            let result = progress->Finished_0;
            let event = events.last();
            &&& n <= 3
            &&& n == 0 ==> progress is Pending && next == (download::Action::<
                P,
                Q,
                D,
                F,
                B,
            >::AttachProbe {
                probe_options: cmd.probe_options,
                image_target: None,
                resume_target: false,
                factory_reset: cmd.download_options.chip_erase && by_name,
            })
            &&& n > 0 && event is Failed ==> progress is Finished && result == Err::<(), E>(
                event->Failed_0,
            )
            &&& n == 1 && !(event is Failed) ==> event is Attached && progress is Pending && next
                == (download::Action::<P, Q, D, F, B>::Flash {
                path: cmd.path,
                format_options: cmd.format_options,
                download_options: download::BinaryDownloadOptions {
                    chip_erase: cmd.download_options.chip_erase && !by_name,
                    rest: cmd.download_options.rest,
                },
                rtt_client: None,
                image_target: None,
            })
            &&& n == 2 && !(event is Failed) && cmd.start ==> event is Flashed && progress
                is Pending && next == (download::Action::<P, Q, D, F, B>::Boot {
                boot_info: event->Flashed_0,
                core: 0,
            })
            &&& n == 2 && !(event is Failed) && !cmd.start ==> event is Flashed && progress
                is Finished && result is Ok
            &&& n == 3 && !(event is Failed) ==> event is Booted && cmd.start && progress
                is Finished && result is Ok
        }),
{
    law_download_begins::<P, Q, D, F, B, E>(cmd);
    lemma_download(cmd, events);
    if events.len() > 0 {
        lemma_download(cmd, events.drop_last());
    }
}

/// What an erase does next, or with what it ends, for whatever came back. Once it
/// is attached it is over if that ran a factory reset; else the flash loader
/// erases everything, and shows its progress unless that was asked not to be.
/// Any failure ends it, and is reported.
pub proof fn law_erase_steps<P, E>(cmd: erase::Cmd<P>, events: Seq<erase::Event<E>>)
    requires
        crate::machine::is_run(cmd.begin(), events),
    ensures
        ({
            let by_name = cmd.common.chip matches Some(name) && (seq![
                'M',
                'S',
                'P',
                'M',
                '0',
            ].is_prefix_of(name@) || seq!['M', 'S', 'P', 'S'].is_prefix_of(name@));
            let factory_reset = cmd.chip_erase && by_name;
            let n = events.len() as int;
            let progress = crate::machine::after(cmd.begin(), events);
            let next = progress->Pending_0.action;
            let result = progress->Finished_0;
            let event = events.last();
            &&& n <= 2
            &&& n == 0 ==> progress is Pending && next == (erase::Action::<P>::AttachProbe {
                probe_options: cmd.common,
                image_target: None,
                resume_target: false,
                factory_reset,
            })
            &&& n > 0 && event is Failed ==> progress is Finished && result == Err::<(), E>(
                event->Failed_0,
            )
            &&& n == 1 && !(event is Failed) && factory_reset ==> event is Attached && progress
                is Finished && result is Ok
            &&& n == 1 && !(event is Failed) && !factory_reset ==> event is Attached && progress
                is Pending && next == (erase::Action::<P>::EraseAll {
                read_flasher_rtt: cmd.read_flasher_rtt,
                progress_bars: !cmd.disable_progressbars,
            })
            &&& n == 2 && !(event is Failed) ==> event is Erased && !factory_reset && progress
                is Finished && result is Ok
        }),
{
    law_erase_begins::<P, E>(cmd);
    lemma_erase(cmd, events);
    if events.len() > 0 {
        lemma_erase(cmd, events.drop_last());
    }
}

} // verus!
