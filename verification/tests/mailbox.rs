use probe_tools::machine::Progress;
use probe_tools::mspm0_dssm::bus::{Action, Event};
use probe_tools::mspm0_dssm::command::{dssm_command, DssmCommand};
use probe_tools::mspm0_dssm::poll::{poll_response, PollStage};
use probe_tools::mspm0_dssm::reset::{toggle_reset, ToggleReset};
use probe_tools::mspm0_dssm::response::{
    check_response, echo_of, response_pending, BootDiagnostic, DssmError, Rejection,
};
use probe_tools::mspm0_dssm::{
    cfg_ap, is_mspm0_family, secap, ApAddress, DpAddress, FullyQualifiedApAddress, BOOTDIAG,
    DSSM_CMD_FACTORY_RESET, DSSM_CMD_MASS_ERASE, DSSM_CMD_START_BOOTLOADER, DSSM_RESPONSE_SUCCESS,
    MAILBOX_SETTLE, NRST_ASSERT, RCR_RX_VALID, RESET_SETTLE, RESPONSE_POLL_INTERVAL,
    RESPONSE_TIMEOUT, SECAP_RCR, SECAP_RXD, SECAP_TCR, SECAP_TDR, SWJ_PIN_NRESET,
};
use probe_tools::text::{append_hex, starts_with};

/// The command values TI's OpenOCD configuration (`tcl/target/ti_mspm0.cfg`)
/// sends, pinned so a slip cannot silently change what goes on the wire.
#[test]
fn dssm_commands_match_ti_openocd() {
    assert_eq!(DSSM_CMD_START_BOOTLOADER, 0x0108);
    assert_eq!(DSSM_CMD_FACTORY_RESET, 0x020a);
    assert_eq!(DSSM_CMD_MASS_ERASE, 0x020c);
    assert_eq!(DSSM_RESPONSE_SUCCESS, 0x10003);
    assert_eq!(RCR_RX_VALID, 0x1);
    assert_eq!(SWJ_PIN_NRESET, 0x80);
}

/// SECAP register offsets from the MSPM0 Technical Reference Manual.
#[test]
fn secap_register_offsets() {
    assert_eq!(SECAP_TDR, 0x0);
    assert_eq!(SECAP_TCR, 0x4);
    assert_eq!(SECAP_RXD, 0x8);
    assert_eq!(SECAP_RCR, 0xc);
    assert_eq!(secap().ap(), &ApAddress::V1(2));
}

/// Every MSPM0/MSPS target must be detected, and other families must not be.
#[test]
fn family_detection_matches_vendor_prefixes() {
    for name in [
        "MSPM0L1306",
        "MSPM0C1104",
        "MSPM0G3507",
        "MSPM0G3519",
        "MSPS003F4",
    ] {
        assert!(
            is_mspm0_family(name),
            "{name} should be detected as MSPM0/MSPS family"
        );
    }

    for name in ["nRF52840", "STM32F103C8", "RP2040", "CC1352R1F3"] {
        assert!(
            !is_mspm0_family(name),
            "{name} should not be detected as MSPM0/MSPS family"
        );
    }
}

#[test]
fn family_names_are_told_by_their_beginning() {
    assert!(is_mspm0_family("MSPM0"));
    assert!(is_mspm0_family("MSPS"));
    assert!(is_mspm0_family("MSPM0\u{e9}"));
    assert!(!is_mspm0_family("MSPM"));
    assert!(!is_mspm0_family("MSP"));
    assert!(!is_mspm0_family(""));
    assert!(!is_mspm0_family("mspm0l1306"));
    assert!(!is_mspm0_family(" MSPM0L1306"));
    assert!(!is_mspm0_family("MSP430G2553"));
}

#[test]
fn prefixes() {
    assert!(starts_with("abc", ""));
    assert!(starts_with("", ""));
    assert!(starts_with("abc", "abc"));
    assert!(!starts_with("ab", "abc"));
    assert!(starts_with("\u{e9}t\u{e9}", "\u{e9}t"));
    assert!(!starts_with("ete", "\u{e9}t"));
}

#[test]
fn access_ports_are_on_the_default_debug_port() {
    assert_eq!(
        secap(),
        FullyQualifiedApAddress {
            dp: DpAddress::Default,
            ap: ApAddress::V1(2)
        }
    );
    assert_eq!(
        cfg_ap(),
        FullyQualifiedApAddress {
            dp: DpAddress::Default,
            ap: ApAddress::V1(1)
        }
    );
    assert_eq!(BOOTDIAG, 0x10);
}

#[test]
fn timings() {
    assert_eq!(MAILBOX_SETTLE, 1000);
    assert_eq!(RESPONSE_TIMEOUT, 2000);
    assert_eq!(RESPONSE_POLL_INTERVAL, 10);
    assert_eq!(NRST_ASSERT, 100);
    assert_eq!(RESET_SETTLE, 100);
}

#[test]
fn hexadecimal_digits() {
    for value in [0, 1, 9, 10, 15, 16, 0x108, 0xfff, 0x1000, 0x1_0003, 0xdead_beef, u32::MAX] {
        let mut text = String::from("n = ");
        append_hex(&mut text, value, 0);
        assert_eq!(text, format!("n = {value:x}"));
        let mut text = String::new();
        append_hex(&mut text, value, 4);
        assert_eq!(text, format!("{value:04x}"));
        let mut text = String::new();
        append_hex(&mut text, value, 8);
        assert_eq!(text, format!("{value:08x}"));
    }
}

#[test]
fn responses() {
    let command = DSSM_CMD_FACTORY_RESET;
    assert_eq!(check_response(command, 0x0b, 0x1_0003), Ok(()));
    // The flags above the low byte and `RX_VALID` itself do not matter.
    assert_eq!(check_response(command, 0xffff_ff0b, 0x1_0003), Ok(()));
    assert_eq!(check_response(command, 0x0a, 0x1_0003), Ok(()));
    assert_eq!(
        check_response(command, 0x0b, 0x1_0002),
        Err(Rejection::CommandFailed {
            command,
            rxd: 0x1_0002,
            rcr: 0x0b
        })
    );
    assert_eq!(
        check_response(command, 0x0d, 0x1_0003),
        Err(Rejection::EchoMismatch { command, rcr: 0x0d })
    );
    // A bad payload is reported before a bad echo.
    assert_eq!(
        check_response(command, 0x0d, 0),
        Err(Rejection::CommandFailed {
            command,
            rxd: 0,
            rcr: 0x0d
        })
    );
    assert_eq!(check_response(DSSM_CMD_START_BOOTLOADER, 0x09, 0x1_0003), Ok(()));
    assert_eq!(check_response(DSSM_CMD_MASS_ERASE, 0x0d, 0x1_0003), Ok(()));
}

#[test]
fn odd_commands_are_never_acknowledged() {
    for low in 0..=0xff {
        assert!(check_response(0x0301, low, 0x1_0003).is_err());
    }
}

#[test]
fn pending_flag() {
    assert!(response_pending(0x1));
    assert!(response_pending(0xffff_ffff));
    assert!(!response_pending(0x0));
    assert!(!response_pending(0xffff_fffe));
}

#[test]
fn rejection_messages() {
    let failed = Rejection::CommandFailed {
        command: 0x020a,
        rxd: 0x1_0004,
        rcr: 0x0b,
    };
    assert_eq!(
        failed.message(),
        "MSPM0 DSSM command 0x020a failed: RXD: 0x00010004, RCR: 0x0000000b"
    );
    let mismatch = Rejection::EchoMismatch {
        command: 0x12_0108,
        rcr: 0xdead_beef,
    };
    assert_eq!(
        mismatch.message(),
        "MSPM0 DSSM command 0x120108 failed: unexpected RCR echo 0xdeadbeef"
    );
    let (command, rxd, rcr): (u32, u32, u32) = (7, 8, 9);
    assert_eq!(
        Rejection::CommandFailed { command, rxd, rcr }.message(),
        format!("MSPM0 DSSM command {command:#06x} failed: RXD: {rxd:#010x}, RCR: {rcr:#010x}")
    );
}

#[test]
fn rejections_in_the_log() {
    let (command, rxd, rcr): (u32, u32, u32) = (0x020a, 0x1_0004, 0xdead_be0d);
    assert_eq!(
        Rejection::CommandFailed { command, rxd, rcr }.log_message(),
        "MSPM0 DSSM: command 0x020a failed, RXD: 0x00010004"
    );
    assert_eq!(
        Rejection::EchoMismatch { command, rcr }.log_message(),
        "MSPM0 DSSM: command echo mismatch, expected 0xa, got 0xc"
    );
    for (command, rcr) in [(0x0100u32, 0x01u32), (0x01ff, 0xff), (0x0110, 0x2f)] {
        assert_eq!(
            Rejection::EchoMismatch { command, rcr }.log_message(),
            format!(
                "MSPM0 DSSM: command echo mismatch, expected {:#x}, got {:#x}",
                command & 0xff,
                rcr & 0xff & !1
            )
        );
    }
}

#[test]
fn echoes() {
    assert_eq!(echo_of(0x0b), 0x0a);
    assert_eq!(echo_of(0x0a), 0x0a);
    assert_eq!(echo_of(0xffff_ffff), 0xfe);
    assert_eq!(echo_of(0xffff_ff00), 0);
}

#[test]
fn boot_diagnostics() {
    let corrupted = BootDiagnostic { value: 0x36 };
    assert!(corrupted.nonmain_corrupted());
    assert_eq!(
        corrupted.message(),
        "MSPM0 DSSM: no response from the bootcode; CFG-AP boot diagnostic is 0x00000036: the \
         NONMAIN configuration appears to be corrupted. If the device still does not respond, it \
         may not be recoverable over SWD."
    );
    let other = BootDiagnostic { value: 0x1234 };
    assert!(!other.nonmain_corrupted());
    assert_eq!(
        other.message(),
        "MSPM0 DSSM: no response from the bootcode; CFG-AP boot diagnostic is 0x00001234. Make \
         sure the probe's nRST line is wired to the target and can actually be driven low: the \
         command is only serviced by the bootcode during boot."
    );
}

const ASSERT: Action = Action::SwjPins {
    output: 0,
    select: 0x80,
    wait: 0,
};
const RELEASE: Action = Action::SwjPins {
    output: 0x80,
    select: 0x80,
    wait: 0,
};

fn write(address: u64, value: u32) -> Action {
    Action::WriteApRegister {
        ap: secap(),
        address,
        value,
    }
}

fn read(address: u64) -> Action {
    Action::ReadApRegister {
        ap: secap(),
        address,
    }
}

fn bootdiag() -> Action {
    Action::ReadApRegister {
        ap: cfg_ap(),
        address: 0x10,
    }
}

type Outcome = Result<(), DssmError<&'static str>>;

/// Runs a command to its end, asking `answer` for the event of each action, by
/// its position.
fn execute(
    command: u32,
    mut answer: impl FnMut(usize, Action) -> Event<&'static str>,
) -> (Vec<Action>, Outcome) {
    let mut actions = vec![];
    let mut execution: DssmCommand<&'static str> = dssm_command(command);
    loop {
        let action = execution.action();
        let event = answer(actions.len(), action);
        actions.push(action);
        match execution.next(event) {
            Progress::Pending(next) => execution = next,
            Progress::Finished(result) => return (actions, result),
        }
    }
}

/// What a device does that has no response ready, and is not asked for the time.
fn idle(action: Action) -> Event<&'static str> {
    match action {
        Action::ReadApRegister { .. } => Event::Value(0),
        Action::ReadClock => Event::Clock(0),
        _ => Event::Done,
    }
}

fn opening(command: u32) -> Vec<Action> {
    vec![
        write(0x4, command),
        write(0x0, 0),
        read(0x8),
        read(0xc),
        Action::Sleep(1000),
        ASSERT,
        Action::Sleep(100),
        RELEASE,
        Action::Sleep(100),
        Action::SuppressRecovery,
        Action::Reinitialize,
        Action::ReadClock,
    ]
}

fn closing() -> Vec<Action> {
    vec![
        Action::Sleep(1000),
        ASSERT,
        Action::Sleep(100),
        RELEASE,
        Action::Sleep(100),
        Action::Sleep(1000),
    ]
}

#[test]
fn a_command_that_is_acknowledged_at_once() {
    let (actions, result) = execute(0x020a, |n, action| match n {
        12 => Event::Value(0x0b),
        13 => Event::Value(0x1_0003),
        _ => idle(action),
    });
    assert_eq!(result, Ok(()));
    let mut expected = opening(0x020a);
    expected.extend([read(0xc), read(0x8), Action::ResumeRecovery]);
    expected.extend(closing());
    assert_eq!(actions, expected);
}

#[test]
fn a_command_that_takes_a_while() {
    let second = 1_000_000_000;
    let (actions, result) = execute(0x0108, |n, action| match n {
        // The stale response cannot be read, and the link is down at first.
        2 | 3 | 10 => Event::Failed("stale"),
        11 => Event::Clock(5 * second),
        12 => Event::Value(0xfffe),
        13 => Event::Clock(5 * second),
        15 => Event::Failed("link"),
        16 => Event::Failed("still down"),
        17 => Event::Clock(7 * second - 1),
        19 => Event::Value(0x09),
        20 => Event::Value(0x1_0003),
        _ => idle(action),
    });
    assert_eq!(result, Ok(()));
    let mut expected = opening(0x0108);
    expected.extend([
        read(0xc),
        Action::ReadClock,
        Action::Sleep(10),
        read(0xc),
        Action::Reinitialize,
        Action::ReadClock,
        Action::Sleep(10),
        read(0xc),
        read(0x8),
        Action::ResumeRecovery,
    ]);
    expected.extend(closing());
    assert_eq!(actions, expected);
}

#[test]
fn a_rejected_command_is_not_followed_by_a_reset() {
    for (rcr, rxd, rejection) in [
        (
            0x0b,
            7,
            Rejection::CommandFailed {
                command: 0x020a,
                rxd: 7,
                rcr: 0x0b,
            },
        ),
        (
            0x0d,
            0x1_0003,
            Rejection::EchoMismatch {
                command: 0x020a,
                rcr: 0x0d,
            },
        ),
    ] {
        let (actions, result) = execute(0x020a, |n, action| match n {
            12 => Event::Value(rcr),
            13 => Event::Value(rxd),
            _ => idle(action),
        });
        assert_eq!(result, Err(DssmError::Rejected(rejection)));
        let mut expected = opening(0x020a);
        expected.extend([read(0xc), read(0x8), Action::ResumeRecovery]);
        assert_eq!(actions, expected);
    }
}

#[test]
fn a_response_that_cannot_be_fetched() {
    let (actions, result) = execute(0x020a, |n, action| match n {
        12 => Event::Value(0x0b),
        13 => Event::Failed("fetch"),
        _ => idle(action),
    });
    assert_eq!(result, Err(DssmError::Interface("fetch")));
    assert_eq!(actions.len(), 15);
    assert_eq!(actions[14], Action::ResumeRecovery);
}

#[test]
fn a_silent_device() {
    for diagnostic in [0x36, 0] {
        let (actions, result) = execute(0x020a, |n, action| match n {
            11 => Event::Clock(100),
            13 => Event::Clock(2_000_000_100),
            14 => Event::Value(diagnostic),
            _ => idle(action),
        });
        assert_eq!(result, Err(DssmError::Timeout));
        let mut expected = opening(0x020a);
        expected.extend([
            read(0xc),
            Action::ReadClock,
            bootdiag(),
            Action::ReportTimeout(BootDiagnostic { value: diagnostic }),
            Action::ResumeRecovery,
        ]);
        assert_eq!(actions, expected);
    }
}

#[test]
fn a_silent_device_without_a_diagnostic() {
    let (actions, result) = execute(0x020a, |n, action| match n {
        13 => Event::Clock(2_000_000_000),
        14 => Event::Failed("locked"),
        _ => idle(action),
    });
    assert_eq!(result, Err(DssmError::Timeout));
    let mut expected = opening(0x020a);
    expected.extend([
        read(0xc),
        Action::ReadClock,
        bootdiag(),
        Action::ResumeRecovery,
    ]);
    assert_eq!(actions, expected);
}

#[test]
fn the_mailbox_and_the_reset_line_have_to_work() {
    for position in [0, 1, 5, 7] {
        let (actions, result) = execute(0x020a, |n, action| {
            if n == position {
                Event::Failed("broken")
            } else {
                idle(action)
            }
        });
        assert_eq!(result, Err(DssmError::Interface("broken")));
        assert_eq!(actions, opening(0x020a)[..=position]);
    }
    for position in [16, 18] {
        let (actions, result) = execute(0x020a, |n, action| match n {
            12 => Event::Value(0x0b),
            13 => Event::Value(0x1_0003),
            n if n == position => Event::Failed("broken"),
            _ => idle(action),
        });
        assert_eq!(result, Err(DssmError::Interface("broken")));
        assert_eq!(actions.len(), position + 1);
        assert!(matches!(actions[position], Action::SwjPins { .. }));
    }
}

#[test]
fn recovery_is_resumed_on_every_path() {
    for clock in [0, u128::MAX] {
        for rcr in [0x0b, 0x0d] {
            for rxd in [Event::Value(0x1_0003), Event::Value(0), Event::Failed("rxd")] {
                let mut rxd = Some(rxd);
                let mut polls = 0;
                let (actions, _) = execute(0x020a, |n, action| match action {
                    Action::ReadClock if n > 11 => Event::Clock(clock),
                    Action::ReadApRegister { address: 0xc, .. } if n > 11 => {
                        polls += 1;
                        Event::Value(if polls == 3 { rcr } else { 0 })
                    }
                    Action::ReadApRegister { address: 0x8, .. } if n > 11 => {
                        rxd.take().unwrap()
                    }
                    _ => idle(action),
                });
                let count = |wanted| actions.iter().filter(|a| **a == wanted).count();
                assert_eq!(count(Action::SuppressRecovery), 1);
                assert_eq!(count(Action::ResumeRecovery), 1);
            }
        }
    }
}

#[test]
fn polling_ends_when_time_passes() {
    // The link never comes back, and only the sleeps take time.
    let mut now: u128 = 0;
    let (actions, result) = execute(0x020a, |n, action| match action {
        Action::Sleep(millis) => {
            now += u128::from(millis) * 1_000_000;
            Event::Done
        }
        Action::ReadClock => Event::Clock(now),
        Action::ReadApRegister { .. } | Action::Reinitialize if n > 9 => Event::Failed("link"),
        _ => idle(action),
    });
    assert_eq!(result, Err(DssmError::Timeout));
    // Two hundred rounds of four actions, then the round that is too late.
    assert_eq!(actions.len(), 12 + 4 * 200 + 3 + 2);
}

#[test]
fn the_longest_execution() {
    let mut now: u128 = 0;
    let (actions, result) = execute(0x020a, |n, action| match action {
        Action::Sleep(millis) => {
            now += u128::from(millis) * 1_000_000;
            Event::Done
        }
        Action::ReadClock => Event::Clock(now),
        _ if n == 12 + 800 => Event::Value(0x0b),
        _ if n == 12 + 801 => Event::Value(0x1_0003),
        Action::ReadApRegister { .. } | Action::Reinitialize if n > 9 => Event::Failed("link"),
        _ => idle(action),
    });
    assert_eq!(result, Ok(()));
    assert_eq!(actions.len(), 821);
}

#[test]
fn events_that_answer_nothing_are_ignored() {
    let execution: DssmCommand<&'static str> = dssm_command(0x020a);
    let Progress::Pending(execution) = execution.next(Event::Value(3)) else {
        panic!("the command was not written yet");
    };
    assert_eq!(execution, dssm_command(0x020a));
}

#[test]
fn toggling_reset() {
    let toggle = toggle_reset();
    assert_eq!(toggle.action(), ASSERT);
    let next = toggle.next::<()>(Event::Done);
    assert_eq!(next, Progress::Pending(ToggleReset::Hold));
    assert_eq!(ToggleReset::Hold.action(), Action::Sleep(100));
    assert_eq!(
        ToggleReset::Hold.next::<()>(Event::Done),
        Progress::Pending(ToggleReset::Release)
    );
    assert_eq!(ToggleReset::Release.action(), RELEASE);
    assert_eq!(
        ToggleReset::Release.next(Event::Failed(1)),
        Progress::Finished(Err(1))
    );
    assert_eq!(
        ToggleReset::Release.next::<()>(Event::Done),
        Progress::Pending(ToggleReset::Settle)
    );
    assert_eq!(
        ToggleReset::Settle.next::<()>(Event::Done),
        Progress::Finished(Ok(()))
    );
}

#[test]
fn the_deadline_does_not_overflow() {
    let mut poll = poll_response(0x020a);
    poll.stage = PollStage::Deadline {
        since: u128::MAX - 5,
    };
    let Progress::Pending(next) = poll.next::<()>(Event::Clock(u128::MAX)) else {
        panic!("there is time left");
    };
    assert_eq!(
        next.stage,
        PollStage::Pause {
            since: u128::MAX - 5
        }
    );
}
