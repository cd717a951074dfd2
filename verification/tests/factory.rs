use probe_tools::machine::Progress;
use probe_tools::mspm0_dssm::bus;
use probe_tools::mspm0_dssm::command::{dssm_command, DssmCommand};
use probe_tools::mspm0_dssm::factory::{
    factory_reset, Action, Event, FactoryReset, FactoryResetError, WireProtocol,
};
use probe_tools::mspm0_dssm::response::{DssmError, Rejection};
use probe_tools::mspm0_dssm::{secap, DpAddress};

type Outcome = Result<(), FactoryResetError<&'static str>>;

fn run(mut answer: impl FnMut(usize, Action) -> Option<Event<&'static str>>) -> (Vec<Action>, Outcome) {
    let mut actions = vec![];
    let mut reset: FactoryReset<&'static str> = factory_reset();
    loop {
        let action = reset.action();
        let event = answer(actions.len(), action).unwrap_or_else(|| cooperate(actions.len(), action));
        actions.push(action);
        match reset.next(event) {
            Progress::Pending(next) => reset = next,
            Progress::Finished(result) => return (actions, result),
        }
    }
}

/// A probe and a device without any trouble.
fn cooperate(position: usize, action: Action) -> Event<&'static str> {
    match action {
        Action::Interface(bus::Action::ReadApRegister { address: 0xc, .. }) if position > 10 => {
            Event::Interface(bus::Event::Value(0x0b))
        }
        Action::Interface(bus::Action::ReadApRegister { address: 0x8, .. }) if position > 10 => {
            Event::Interface(bus::Event::Value(0x1_0003))
        }
        Action::Interface(bus::Action::ReadApRegister { .. }) => {
            Event::Interface(bus::Event::Value(0))
        }
        Action::Interface(bus::Action::ReadClock) => Event::Interface(bus::Event::Clock(0)),
        Action::Interface(_) => Event::Interface(bus::Event::Done),
        Action::CurrentDebugPort => Event::DebugPort(Some(DpAddress::Default)),
        _ => Event::Done,
    }
}

#[test]
fn a_factory_reset() {
    let (actions, result) = run(|_, _| None);
    assert_eq!(result, Ok(()));
    assert_eq!(
        actions[..4],
        [
            Action::SelectProtocol(WireProtocol::Swd),
            Action::AttachToUnspecified,
            Action::IntoArmDebugInterface { sequence: "MSPM0" },
            Action::Interface(bus::Action::WriteApRegister {
                ap: secap(),
                address: 0x4,
                value: 0x020a
            }),
        ]
    );
    assert_eq!(actions.len(), 3 + 21 + 3);
    let writes: Vec<&Action> = actions
        .iter()
        .filter(|a| matches!(a, Action::Interface(bus::Action::WriteApRegister { .. })))
        .collect();
    assert_eq!(writes, [&actions[3], &actions[4]]);
    assert_eq!(
        actions[24..],
        [Action::CurrentDebugPort, Action::Close, Action::Detach]
    );
}

#[test]
fn a_factory_reset_does_what_its_command_does() {
    let (actions, _) = run(|_, _| None);
    let on_interface: Vec<bus::Action> = actions
        .iter()
        .filter_map(|action| match action {
            Action::Interface(action) => Some(*action),
            _ => None,
        })
        .collect();

    let mut expected = vec![];
    let mut execution: DssmCommand<&'static str> = dssm_command(0x020a);
    loop {
        let action = execution.action();
        let Event::Interface(event) = cooperate(expected.len() + 3, Action::Interface(action))
        else {
            panic!("the interface answers");
        };
        expected.push(action);
        match execution.next(event) {
            Progress::Pending(next) => execution = next,
            Progress::Finished(result) => {
                assert_eq!(result, Ok(()));
                break;
            }
        }
    }
    assert_eq!(on_interface, expected);
}

#[test]
fn an_attach_that_fails_is_not_undone() {
    for position in [0, 1] {
        let (actions, result) = run(|n, _| (n == position).then_some(Event::Failed("probe")));
        assert_eq!(result, Err(FactoryResetError::Probe("probe")));
        assert_eq!(actions.len(), position + 1);
    }
}

#[test]
fn a_probe_without_arm_support_is_detached() {
    for detached in [Event::Done, Event::Failed("detach")] {
        let mut detached = Some(detached);
        let (actions, result) = run(|n, _| match n {
            2 => Some(Event::Failed("no ARM")),
            3 => detached.take(),
            _ => None,
        });
        assert_eq!(result, Err(FactoryResetError::Probe("no ARM")));
        assert_eq!(actions.len(), 4);
        assert_eq!(actions[3], Action::Detach);
    }
}

#[test]
fn a_failed_command_is_reported_after_the_cleanup() {
    // The very first access fails, so no debug port is selected yet.
    let (actions, result) = run(|n, action| match (n, action) {
        (3, _) => Some(Event::Interface(bus::Event::Failed("write"))),
        (_, Action::CurrentDebugPort) => Some(Event::DebugPort(None)),
        (_, Action::SelectDebugPort(_)) => Some(Event::Failed("select")),
        (_, Action::Detach) => Some(Event::Failed("detach")),
        _ => None,
    });
    assert_eq!(
        result,
        Err(FactoryResetError::Command(DssmError::Interface("write")))
    );
    assert_eq!(
        actions[4..],
        [
            Action::CurrentDebugPort,
            Action::SelectDebugPort(DpAddress::Default),
            Action::Close,
            Action::Detach,
        ]
    );
}

#[test]
fn a_rejected_command_is_reported_after_the_cleanup() {
    let (actions, result) = run(|n, _| match n {
        16 => Some(Event::Interface(bus::Event::Value(5))),
        _ => None,
    });
    assert_eq!(
        result,
        Err(FactoryResetError::Command(DssmError::Rejected(
            Rejection::CommandFailed {
                command: 0x020a,
                rxd: 5,
                rcr: 0x0b
            }
        )))
    );
    assert_eq!(actions.len(), 3 + 15 + 3);
}

#[test]
fn a_silent_device_times_out() {
    let mut now = 0;
    let (actions, result) = run(|n, action| match action {
        Action::Interface(bus::Action::ReadApRegister { address: 0xc, .. }) => {
            Some(Event::Interface(bus::Event::Failed("link")))
        }
        Action::Interface(bus::Action::ReadClock) if n > 0 => {
            now += 10_000_000;
            Some(Event::Interface(bus::Event::Clock(now)))
        }
        _ => None,
    });
    assert_eq!(
        result,
        Err(FactoryResetError::Command(DssmError::Timeout))
    );
    assert!(actions.len() <= 828);
    assert_eq!(actions[actions.len() - 1], Action::Detach);
}
