use mcu::controller::{fault_is_fatal, fault_kind, Action, Controller, FaultKind, Level, Step};
use mcu::diagnostics::{message, message_bytes, register_snapshot, sentinel, REGISTER_COUNT, SENTINEL_FILL};
use mcu::ownership::PeripheralRegistry;

const BRINGUP: [Step; 8] = [
    Step::AcquireCore,
    Step::AcquireDevice,
    Step::ConfigureClocks,
    Step::ConfigurePins,
    Step::InitBus,
    Step::BuildDelay,
    Step::BuildRadio,
    Step::DumpRegisters,
];

/// Runs the controller through successful steps, collecting the actions asked for.
fn run_ok(c: &mut Controller, n: usize) -> Vec<Action> {
    let mut out = Vec::new();
    for _ in 0..n {
        out.push(c.next_action());
        c.record(true);
    }
    out
}

#[test]
fn second_core_acquisition_is_refused() {
    let mut reg = PeripheralRegistry::new();
    assert!(reg.take_core().is_some());
    assert!(reg.take_core().is_none());
    assert!(reg.take_core().is_none());
    assert!(reg.take_device().is_some());
    assert!(reg.take_device().is_none());
}

#[test]
fn device_acquisition_is_independent_of_core() {
    let mut reg = PeripheralRegistry::new();
    assert!(reg.take_device().is_some());
    assert!(reg.take_core().is_some());
    assert!(reg.take_device().is_none());
}

#[test]
fn second_acquisition_halts_before_pins() {
    let mut reg = PeripheralRegistry::new();
    let mut c = Controller::new();
    assert_eq!(c.next_action(), Action::Perform(Step::AcquireCore));
    c.record(reg.take_core().is_some());
    assert_eq!(c.next_action(), Action::Perform(Step::AcquireDevice));
    c.record(reg.take_device().is_some());
    let mut again = Controller::new();
    again.record(reg.take_core().is_some());
    assert!(again.is_halted());
    assert_eq!(again.next_action(), Action::Halt(Step::AcquireCore));
    for _ in 0..5 {
        again.record(true);
        assert_eq!(again.next_action(), Action::Halt(Step::AcquireCore));
    }
    assert_eq!(fault_kind(Step::AcquireCore), FaultKind::Acquisition);
}

#[test]
fn normal_boot_order_and_loop() {
    let mut c = Controller::new();
    let actions = run_ok(&mut c, 16);
    for (i, s) in BRINGUP.iter().enumerate() {
        assert_eq!(actions[i], Action::Perform(*s));
    }
    let cycle = [
        Action::Perform(Step::SetIndicator(Level::Low)),
        Action::Perform(Step::Send),
        Action::Perform(Step::SetIndicator(Level::High)),
        Action::Perform(Step::Send),
    ];
    for i in 8..16 {
        assert_eq!(actions[i], cycle[(i - 8) % 4]);
    }
    assert!(!c.is_halted());
}

#[test]
fn bus_initialised_after_pins_and_radio_after_bus() {
    let mut c = Controller::new();
    let actions = run_ok(&mut c, 8);
    let pos = |s: Step| actions.iter().position(|a| *a == Action::Perform(s)).unwrap();
    assert!(pos(Step::ConfigurePins) < pos(Step::InitBus));
    assert!(pos(Step::InitBus) < pos(Step::BuildRadio));
    assert!(pos(Step::ConfigureClocks) < pos(Step::ConfigurePins));
}

#[test]
fn failed_pin_configuration_stops_bus_init() {
    let mut c = Controller::new();
    run_ok(&mut c, 3);
    assert_eq!(c.next_action(), Action::Perform(Step::ConfigurePins));
    c.record(false);
    for _ in 0..10 {
        assert_eq!(c.next_action(), Action::Halt(Step::ConfigurePins));
        c.record(true);
    }
    assert_eq!(fault_kind(Step::ConfigurePins), FaultKind::Configuration);
}

#[test]
fn failed_clock_configuration_is_fatal() {
    let mut c = Controller::new();
    run_ok(&mut c, 2);
    assert_eq!(c.next_action(), Action::Perform(Step::ConfigureClocks));
    c.record(false);
    assert!(c.is_halted());
    assert_eq!(c.next_action(), Action::Halt(Step::ConfigureClocks));
}

#[test]
fn failed_register_dump_is_recovered() {
    let mut c = Controller::new();
    run_ok(&mut c, 7);
    assert_eq!(c.next_action(), Action::Perform(Step::DumpRegisters));
    c.record(false);
    assert!(!c.is_halted());
    assert_eq!(c.next_action(), Action::Perform(Step::SetIndicator(Level::Low)));
    assert_eq!(fault_kind(Step::DumpRegisters), FaultKind::RecoveredDump);
    assert!(!fault_is_fatal(FaultKind::RecoveredDump));
    assert!(fault_is_fatal(FaultKind::RadioSend));
    assert!(fault_is_fatal(FaultKind::Acquisition));
    assert!(fault_is_fatal(FaultKind::Configuration));
}

#[test]
fn send_failure_on_third_call_halts() {
    let mut c = Controller::new();
    run_ok(&mut c, 8);
    let mut sends = 0;
    let mut indicator_sets = 0;
    loop {
        match c.next_action() {
            Action::Perform(Step::Send) => {
                sends += 1;
                c.record(sends != 3);
            }
            Action::Perform(Step::SetIndicator(_)) => {
                indicator_sets += 1;
                c.record(true);
            }
            Action::Halt(step) => {
                assert_eq!(step, Step::Send);
                break;
            }
            other => panic!("unexpected action {:?}", other),
        }
    }
    assert_eq!(sends, 3);
    assert_eq!(indicator_sets, 3);
    assert_eq!(fault_kind(Step::Send), FaultKind::RadioSend);
    for _ in 0..8 {
        c.record(true);
        assert_eq!(c.next_action(), Action::Halt(Step::Send));
    }
}

#[test]
fn indicator_alternates_once_per_send() {
    let mut c = Controller::new();
    run_ok(&mut c, 8);
    let actions = run_ok(&mut c, 40);
    let mut last_level: Option<Level> = None;
    let mut pending_set = false;
    for a in actions {
        match a {
            Action::Perform(Step::SetIndicator(l)) => {
                assert!(!pending_set);
                assert_ne!(Some(l), last_level);
                last_level = Some(l);
                pending_set = true;
            }
            Action::Perform(Step::Send) => {
                assert!(pending_set);
                pending_set = false;
            }
            other => panic!("unexpected action {:?}", other),
        }
    }
}

#[test]
fn failed_dump_gives_full_sentinel() {
    let a = register_snapshot::<u8>(Err(1));
    let b = register_snapshot::<&str>(Err("bus"));
    assert_eq!(a, b);
    assert_eq!(a, [0xab; 79]);
    assert_eq!(sentinel(), [0xab; 79]);
    assert_eq!(REGISTER_COUNT, 79);
    assert_eq!(SENTINEL_FILL, 0xab);
}

#[test]
fn successful_dump_is_kept() {
    let mut regs = [0u8; 79];
    for (i, r) in regs.iter_mut().enumerate() {
        *r = i as u8;
    }
    assert_eq!(register_snapshot::<u8>(Ok(regs)), regs);
}

#[test]
fn message_is_fixed_ascii() {
    assert_eq!(message(), "Hello from me.");
    assert_eq!(message_bytes(), b"Hello from me.");
}

#[test]
fn halt_is_terminal_whatever_is_reported() {
    let mut c = Controller::new();
    run_ok(&mut c, 4);
    assert_eq!(c.next_action(), Action::Perform(Step::InitBus));
    c.record(false);
    for ok in [true, false, true, true, false] {
        c.record(ok);
        assert!(c.is_halted());
        assert_eq!(c.next_action(), Action::Halt(Step::InitBus));
    }
}
