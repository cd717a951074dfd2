use probe_tools::cmd::download::{self, BinaryDownloadOptions};
use probe_tools::cmd::erase;
use probe_tools::cmd::{erases_by_factory_reset, ProbeOptions};
use probe_tools::machine::Progress;

fn probe_options(chip: Option<&str>) -> ProbeOptions<u32> {
    ProbeOptions {
        chip: chip.map(str::to_string),
        rest: 41,
    }
}

fn download(chip: Option<&str>, chip_erase: bool, start: bool) -> DownloadCmd {
    download::Cmd {
        probe_options: probe_options(chip),
        path: "firmware.elf",
        download_options: BinaryDownloadOptions {
            chip_erase,
            rest: 42,
        },
        format_options: 43,
        start,
    }
}

type DownloadCmd = download::Cmd<u32, &'static str, u8, u16>;
type DownloadAction = download::Action<u32, &'static str, u8, u16, i32>;

fn run_download(
    cmd: DownloadCmd,
    events: Vec<download::Event<i32, String>>,
) -> (Vec<DownloadAction>, Option<Result<(), String>>) {
    let mut actions = vec![];
    let mut call = cmd.run();
    for event in events {
        actions.push(call.action);
        assert!(call.run.accepts(&event));
        match call.run.next(event) {
            Progress::Pending(next) => call = next,
            Progress::Finished(result) => return (actions, Some(result)),
        }
    }
    (actions, None)
}

fn attach(chip: Option<&str>, factory_reset: bool) -> DownloadAction {
    download::Action::AttachProbe {
        probe_options: probe_options(chip),
        image_target: None,
        resume_target: false,
        factory_reset,
    }
}

fn flash(chip_erase: bool) -> DownloadAction {
    download::Action::Flash {
        path: "firmware.elf",
        format_options: 43,
        download_options: BinaryDownloadOptions {
            chip_erase,
            rest: 42,
        },
        rtt_client: None,
        image_target: None,
    }
}

#[test]
fn the_decision() {
    let some = |name: &str| Some(name.to_string());
    assert!(erases_by_factory_reset(&some("MSPM0L1306"), true));
    assert!(erases_by_factory_reset(&some("MSPS003F4"), true));
    assert!(!erases_by_factory_reset(&some("MSPM0L1306"), false));
    assert!(!erases_by_factory_reset(&some("RP2040"), true));
    assert!(!erases_by_factory_reset(&None, true));
    assert!(!erases_by_factory_reset(&None, false));
}

#[test]
fn a_download_with_a_factory_reset() {
    let chip = Some("MSPM0G3507");
    let (actions, result) = run_download(
        download(chip, true, true),
        vec![
            download::Event::Attached,
            download::Event::Flashed(7),
            download::Event::Booted,
        ],
    );
    assert_eq!(result, Some(Ok(())));
    assert_eq!(
        actions,
        [
            attach(chip, true),
            flash(false),
            download::Action::Boot {
                boot_info: 7,
                core: 0
            },
        ]
    );
}

#[test]
fn a_download_with_an_ordinary_chip_erase() {
    for chip in [Some("STM32F103C8"), None] {
        let (actions, result) = run_download(
            download(chip, true, false),
            vec![download::Event::Attached, download::Event::Flashed(7)],
        );
        assert_eq!(result, Some(Ok(())));
        assert_eq!(actions, [attach(chip, false), flash(true)]);
    }
}

#[test]
fn a_download_without_an_erase() {
    let chip = Some("MSPM0G3507");
    let (actions, result) = run_download(
        download(chip, false, false),
        vec![download::Event::Attached, download::Event::Flashed(7)],
    );
    assert_eq!(result, Some(Ok(())));
    assert_eq!(actions, [attach(chip, false), flash(false)]);
}

#[test]
fn a_download_that_fails() {
    let failed = || download::Event::Failed("lost".to_string());
    let runs = [
        vec![failed()],
        vec![download::Event::Attached, failed()],
        vec![
            download::Event::Attached,
            download::Event::Flashed(7),
            failed(),
        ],
    ];
    for (n, events) in runs.into_iter().enumerate() {
        let (actions, result) = run_download(download(None, false, true), events);
        assert_eq!(result, Some(Err("lost".to_string())));
        assert_eq!(actions.len(), n + 1);
    }
}

#[test]
fn a_download_accepts_only_the_event_of_its_action() {
    let call = download(None, false, true).run::<i32>();
    assert!(call.run.accepts::<i32, ()>(&download::Event::Attached));
    assert!(call.run.accepts::<i32, ()>(&download::Event::Failed(())));
    assert!(!call.run.accepts::<i32, ()>(&download::Event::Flashed(1)));
    assert!(!call.run.accepts::<i32, ()>(&download::Event::Booted));
}

fn erase(chip: Option<&str>, chip_erase: bool) -> erase::Cmd<u32> {
    erase::Cmd {
        common: probe_options(chip),
        disable_progressbars: false,
        read_flasher_rtt: true,
        chip_erase,
    }
}

fn run_erase(
    cmd: erase::Cmd<u32>,
    events: Vec<erase::Event<String>>,
) -> (Vec<erase::Action<u32>>, Option<Result<(), String>>) {
    let mut actions = vec![];
    let mut call = cmd.run();
    for event in events {
        actions.push(call.action);
        assert!(call.run.accepts(&event));
        match call.run.next(event) {
            Progress::Pending(next) => call = next,
            Progress::Finished(result) => return (actions, Some(result)),
        }
    }
    (actions, None)
}

#[test]
fn an_erase_by_factory_reset() {
    let chip = Some("MSPS003F4");
    let (actions, result) = run_erase(
        erase(chip, true),
        vec![erase::Event::Attached, erase::Event::Erased],
    );
    assert_eq!(result, Some(Ok(())));
    assert_eq!(
        actions,
        [erase::Action::AttachProbe {
            probe_options: probe_options(chip),
            image_target: None,
            resume_target: false,
            factory_reset: true
        }]
    );
}

#[test]
fn an_erase_by_the_flash_loader() {
    for (chip, chip_erase) in [
        (Some("MSPS003F4"), false),
        (Some("nRF52840"), true),
        (None, true),
    ] {
        for disable_progressbars in [false, true] {
            let mut cmd = erase(chip, chip_erase);
            cmd.disable_progressbars = disable_progressbars;
            let (actions, result) =
                run_erase(cmd, vec![erase::Event::Attached, erase::Event::Erased]);
            assert_eq!(result, Some(Ok(())));
            assert_eq!(
                actions,
                [
                    erase::Action::AttachProbe {
                        probe_options: probe_options(chip),
                        image_target: None,
                        resume_target: false,
                        factory_reset: false
                    },
                    erase::Action::EraseAll {
                        read_flasher_rtt: true,
                        progress_bars: !disable_progressbars
                    },
                ]
            );
        }
    }
}

#[test]
fn an_erase_that_fails() {
    let failed = || erase::Event::Failed("lost".to_string());
    let (actions, result) = run_erase(erase(None, false), vec![failed()]);
    assert_eq!(result, Some(Err("lost".to_string())));
    assert_eq!(actions.len(), 1);
    let (actions, result) = run_erase(erase(None, false), vec![erase::Event::Attached, failed()]);
    assert_eq!(result, Some(Err("lost".to_string())));
    assert_eq!(actions.len(), 2);
    // A factory reset that fails is no success either.
    let (_, result) = run_erase(erase(Some("MSPM0L1306"), true), vec![failed()]);
    assert_eq!(result, Some(Err("lost".to_string())));
}

#[test]
fn an_erase_accepts_only_the_event_of_its_action() {
    let call = erase(None, false).run();
    assert!(call.run.accepts::<()>(&erase::Event::Attached));
    assert!(!call.run.accepts::<()>(&erase::Event::Erased));
}
