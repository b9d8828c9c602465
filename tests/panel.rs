use panel_firmware::control::ControlLoop;
use panel_firmware::display::{
    change_board_mode, frame, machine_is_on, show_rust_logo, Caption, DisplayPresenter, DrawOp,
    RenderRequests, Screen, BOOT_DWELL_MS, WARNING_DWELL_MS,
};
use panel_firmware::leds::{LedActuator, LedPair};
use panel_firmware::mode::{BoardState, ModeMachine};
use panel_firmware::network::{LinkState, NetAction, NetEvent, Supervisor, RETRY_DELAY_MS};
use panel_firmware::sampler::{ButtonEdge, EdgeDetector, POLL_PERIOD_MS};
use panel_firmware::signal::Signal;

#[test]
fn boot_press_warning_and_sensor_scenario() {
    let mut requests = RenderRequests::new();
    let mut led_signal: Signal<bool> = Signal::new();
    let mut control = ControlLoop::new(false, false, &mut requests, &mut led_signal);
    let mut presenter = DisplayPresenter::new();
    let mut leds = LedActuator::new(false);

    // boot: logo for two seconds, then mode CNC
    let boot = presenter.next_render(&mut requests).unwrap();
    assert_eq!(boot.screen, Screen::Boot);
    assert_eq!(boot.dwell_ms, 2000);
    assert_eq!(boot.ops, vec![DrawOp::Init, DrawOp::Clear, DrawOp::Logo { x: 32, y: 0 }, DrawOp::Flush]);
    let first = presenter.next_render(&mut requests).unwrap();
    assert_eq!(first.screen, Screen::ModeAnnouncement(BoardState::CNC));
    assert!(presenter.next_render(&mut requests).is_none());
    assert_eq!(leds.poll(&mut led_signal), Some(LedPair { on: false, off: true }));

    // press with the machine off: mode becomes Roller
    assert_eq!(control.step(true, false, &mut requests, &mut led_signal), Some(true));
    assert_eq!(control.current_mode(), BoardState::Roller);
    let shown = presenter.next_render(&mut requests).unwrap();
    assert_eq!(shown.screen, Screen::ModeAnnouncement(BoardState::Roller));
    assert_eq!(control.step(false, false, &mut requests, &mut led_signal), None);

    // machine starts, then a press: warning, mode stays Roller
    assert_eq!(control.step(false, true, &mut requests, &mut led_signal), None);
    assert_eq!(leds.poll(&mut led_signal), Some(LedPair { on: true, off: false }));
    assert!(presenter.next_render(&mut requests).is_none());
    assert_eq!(control.step(true, true, &mut requests, &mut led_signal), None);
    assert_eq!(control.current_mode(), BoardState::Roller);
    let warning = presenter.next_render(&mut requests).unwrap();
    assert_eq!(warning.screen, Screen::MachineWarning);
    assert_eq!(warning.dwell_ms, 5000);
    let back = presenter.next_render(&mut requests).unwrap();
    assert_eq!(back.screen, Screen::ModeAnnouncement(BoardState::Roller));

    // sensor high to low: LEDs swap, display untouched
    assert_eq!(control.step(false, false, &mut requests, &mut led_signal), None);
    assert!(presenter.next_render(&mut requests).is_none());
    assert_eq!(leds.poll(&mut led_signal), Some(LedPair { on: false, off: true }));
    assert_eq!(control.current_mode(), BoardState::Roller);
}

#[test]
fn signal_keeps_latest_value() {
    let mut s: Signal<u32> = Signal::new();
    assert!(!s.is_signaled());
    assert_eq!(s.peek(), None);
    s.signal(1);
    s.signal(2);
    s.signal(3);
    assert!(s.is_signaled());
    assert_eq!(s.peek(), Some(&3));
    assert!(s.is_signaled());
    assert_eq!(s.take(), Some(3));
    assert!(!s.is_signaled());
    assert_eq!(s.take(), None);
}

#[test]
fn signal_reset_clears() {
    let mut s: Signal<bool> = Signal::new();
    s.signal(true);
    s.reset();
    assert!(!s.is_signaled());
    assert_eq!(s.peek(), None);
}

#[test]
fn edges_are_reported_once() {
    let mut d = EdgeDetector::new(false);
    assert_eq!(d.sample(false), ButtonEdge::Steady);
    assert_eq!(d.sample(true), ButtonEdge::Pressed);
    assert_eq!(d.sample(true), ButtonEdge::Steady);
    assert!(d.stable_level());
    assert_eq!(d.sample(false), ButtonEdge::Released);
    assert_eq!(d.sample(false), ButtonEdge::Steady);
    assert_eq!(POLL_PERIOD_MS, 100);
}

#[test]
fn leds_stay_complementary() {
    let mut a = LedActuator::new(true);
    assert_eq!(a.levels(), LedPair { on: true, off: false });
    for level in [false, false, true, false, true, true] {
        let p = a.apply(level);
        assert_eq!(p, LedPair { on: level, off: !level });
        assert_ne!(a.levels().on, a.levels().off);
    }
    let mut s: Signal<bool> = Signal::new();
    assert_eq!(a.poll(&mut s), None);
    assert_eq!(a.levels(), LedPair { on: true, off: false });
}

#[test]
fn press_toggles_when_stopped() {
    let mut m = ModeMachine::new(false);
    assert_eq!(m.current_mode(), BoardState::CNC);
    assert_eq!(m.press(), Screen::ModeAnnouncement(BoardState::Roller));
    assert_eq!(m.press(), Screen::ModeAnnouncement(BoardState::CNC));
}

#[test]
fn press_is_locked_out_while_running() {
    let mut m = ModeMachine::new(false);
    m.set_machine_running(true);
    assert!(m.is_machine_running());
    assert_eq!(m.press(), Screen::MachineWarning);
    assert_eq!(m.current_mode(), BoardState::CNC);
    m.set_machine_running(false);
    assert_eq!(m.press(), Screen::ModeAnnouncement(BoardState::Roller));
}

#[test]
fn held_button_counts_one_press() {
    let mut requests = RenderRequests::new();
    let mut led_signal: Signal<bool> = Signal::new();
    let mut c = ControlLoop::new(false, false, &mut requests, &mut led_signal);
    assert_eq!(c.step(true, false, &mut requests, &mut led_signal), Some(true));
    assert_eq!(c.step(true, false, &mut requests, &mut led_signal), None);
    assert_eq!(c.step(true, false, &mut requests, &mut led_signal), None);
    assert_eq!(c.current_mode(), BoardState::Roller);
    assert!(!c.is_machine_running());
}

#[test]
fn warning_has_priority_over_mode() {
    let mut requests = RenderRequests::new();
    let mut p = DisplayPresenter::new();
    assert_eq!(p.next_render(&mut requests).unwrap().screen, Screen::Boot);
    requests.mode.signal(BoardState::CNC);
    requests.warning.signal(());
    assert_eq!(p.next_render(&mut requests).unwrap().screen, Screen::MachineWarning);
    assert!(requests.mode.is_signaled());
    assert_eq!(
        p.next_render(&mut requests).unwrap().screen,
        Screen::ModeAnnouncement(BoardState::CNC)
    );
    assert!(p.next_render(&mut requests).is_none());
}

#[test]
fn frames_are_whole() {
    assert_eq!(
        change_board_mode(BoardState::Roller),
        vec![
            DrawOp::Init,
            DrawOp::Clear,
            DrawOp::Text { caption: Caption::ModeLabel(BoardState::Roller), x: 32, y: 32 },
            DrawOp::Flush
        ]
    );
    assert_eq!(
        machine_is_on(),
        vec![
            DrawOp::Init,
            DrawOp::Clear,
            DrawOp::Text { caption: Caption::TurnMachineOff, x: 10, y: 32 },
            DrawOp::Text { caption: Caption::TryAgain, x: 10, y: 42 },
            DrawOp::Flush
        ]
    );
    assert_eq!(show_rust_logo(), frame(Screen::Boot));
    assert_eq!(BOOT_DWELL_MS, 2000);
    assert_eq!(WARNING_DWELL_MS, 5000);
}

#[test]
fn captions_and_names() {
    assert_eq!(Caption::ModeLabel(BoardState::CNC).text(), "Modo: CNC!");
    assert_eq!(Caption::ModeLabel(BoardState::Roller).text(), "Modo: Roller!");
    assert_eq!(Caption::TurnMachineOff.text(), "Desligue a maquina!");
    assert_eq!(Caption::TryAgain.text(), "E tente novamente!");
    assert_eq!(BoardState::CNC.name(), "CNC");
    assert_eq!(BoardState::Roller.name(), "Roller");
    assert_eq!(BoardState::from(false), BoardState::CNC);
    assert_eq!(BoardState::from(true), BoardState::Roller);
    assert!(BoardState::Roller.level());
    assert_eq!(BoardState::CNC.toggle(), BoardState::Roller);
}

#[test]
fn supervisor_retries_after_failures() {
    let mut s = Supervisor::new();
    assert_eq!(s.link_state(), LinkState::Disconnected);
    let mut attempts = 0;
    let mut action = s.step(NetEvent::Started { radio_started: false });
    assert_eq!(action, NetAction::Connect { start_radio: true });
    attempts += 1;
    for _ in 0..4 {
        action = s.step(NetEvent::ConnectFailed);
        assert_eq!(action, NetAction::Wait { ms: RETRY_DELAY_MS });
        assert_eq!(s.link_state(), LinkState::Disconnected);
        action = s.step(NetEvent::DelayElapsed { radio_started: true });
        assert_eq!(action, NetAction::Connect { start_radio: false });
        assert_eq!(s.link_state(), LinkState::Connecting);
        attempts += 1;
    }
    assert_eq!(attempts, 5);
    assert_eq!(s.step(NetEvent::ConnectSucceeded), NetAction::AwaitDisconnect);
    assert!(s.is_link_up());
    assert_eq!(s.step(NetEvent::LinkLost), NetAction::Wait { ms: 5000 });
    assert!(!s.is_link_up());
}
