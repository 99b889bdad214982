use game_mode::controller::{Command, GateCheck, ModeSwitchController, PadEvent, Phase, Purpose};
use game_mode::store::{desktop_mode_plan, game_mode_plan, Entry, Profile, StoreState};

const SAFE: [Option<bool>; 3] = [Some(true), Some(true), Some(false)];

/// Feeds answers to the controller's queries until it stops asking.
fn answer_all(c: &mut ModeSwitchController, mut cmd: Command, answers: &[Option<bool>]) -> Command {
    let mut k = 0;
    while let Command::Query(_) = cmd {
        cmd = c.on_gate_answer(answers[k]);
        k += 1;
    }
    cmd
}

fn press_safely(c: &mut ModeSwitchController) {
    let cmd = c.on_pad_event(PadEvent::ModePressed);
    assert_eq!(cmd, Command::Query(GateCheck::ActiveTerminal));
    assert_eq!(answer_all(c, cmd, &SAFE), Command::Nothing);
    assert!(c.is_pressed());
}

#[test]
fn press_then_release_asks_the_gates_in_order_then_switches() {
    let mut c = ModeSwitchController::new();
    press_safely(&mut c);
    assert_eq!(c.on_pad_event(PadEvent::ModeReleased), Command::Query(GateCheck::ActiveTerminal));
    assert_eq!(c.on_gate_answer(Some(true)), Command::Query(GateCheck::GreeterForeground));
    assert_eq!(c.on_gate_answer(Some(true)), Command::Query(GateCheck::ForeignSession));
    assert_eq!(c.on_gate_answer(Some(false)), Command::RunSwitch);
    assert_eq!(c.phase(), Phase::Switching);
    c.on_switch_done();
    assert_eq!(c.phase(), Phase::Idle);
    assert!(!c.is_busy());
}

#[test]
fn press_without_release_attempts_nothing() {
    let mut c = ModeSwitchController::new();
    press_safely(&mut c);
    assert_eq!(c.on_pad_event(PadEvent::Other), Command::Nothing);
    press_safely(&mut c);
    assert_eq!(c.phase(), Phase::Idle);
}

#[test]
fn release_without_press_attempts_nothing() {
    let mut c = ModeSwitchController::new();
    assert_eq!(c.on_pad_event(PadEvent::ModeReleased), Command::Nothing);
    press_safely(&mut c);
    let cmd = c.on_pad_event(PadEvent::ModeReleased);
    assert_eq!(c.on_gate_answer(Some(false)), Command::Nothing);
    assert_ne!(cmd, Command::Nothing);
    assert_eq!(c.on_pad_event(PadEvent::ModeReleased), Command::Nothing);
}

#[test]
fn press_made_while_unsafe_does_not_arm_its_release() {
    let mut c = ModeSwitchController::new();
    let cmd = c.on_pad_event(PadEvent::ModePressed);
    assert_eq!(answer_all(&mut c, cmd, &[Some(true), Some(true), Some(true)]), Command::Nothing);
    assert!(!c.is_pressed());
    assert_eq!(c.on_pad_event(PadEvent::ModeReleased), Command::Nothing);
    assert_eq!(c.phase(), Phase::Idle);
}

#[test]
fn each_gate_fails_closed_on_error_and_on_unsafe_answers() {
    let unsafe_answers = [Some(false), Some(false), Some(true)];
    for gate in 0..3 {
        for bad in [None, unsafe_answers[gate]] {
            let mut c = ModeSwitchController::new();
            press_safely(&mut c);
            c.on_pad_event(PadEvent::ModeReleased);
            for answer in SAFE.iter().take(gate) {
                assert_ne!(c.on_gate_answer(*answer), Command::RunSwitch);
            }
            assert_eq!(c.on_gate_answer(bad), Command::Nothing);
            assert_eq!(c.phase(), Phase::Idle);
        }
    }
}

#[test]
fn foreign_session_on_greeter_terminal_leaves_pointer_untouched() {
    let mut store = StoreState { pointer: Some(Entry::LinkTo(Profile::Desktop)), backup: None };
    let before = store;
    let mut c = ModeSwitchController::new();
    press_safely(&mut c);
    let cmd = c.on_pad_event(PadEvent::ModeReleased);
    let cmd = answer_all(&mut c, cmd, &[Some(true), Some(true), Some(true)]);
    if cmd == Command::RunSwitch {
        store.apply_all(&game_mode_plan());
    }
    assert_eq!(cmd, Command::Nothing);
    assert_eq!(store, before);
}

#[test]
fn requests_during_a_switch_are_ignored() {
    let mut c = ModeSwitchController::new();
    press_safely(&mut c);
    let cmd = c.on_pad_event(PadEvent::ModeReleased);
    assert_eq!(answer_all(&mut c, cmd, &SAFE), Command::RunSwitch);
    let mut runs = 1;
    for _ in 0..5 {
        for cmd in [
            c.on_pad_event(PadEvent::ModePressed),
            c.on_pad_event(PadEvent::ModeReleased),
            c.on_gate_answer(Some(false)),
        ] {
            if cmd == Command::RunSwitch {
                runs += 1;
            }
            assert_eq!(cmd, Command::Nothing);
        }
    }
    assert_eq!(runs, 1);
    assert!(c.is_busy());
}

#[test]
fn requests_during_gate_checks_are_ignored() {
    let mut c = ModeSwitchController::new();
    press_safely(&mut c);
    c.on_pad_event(PadEvent::ModeReleased);
    assert_eq!(c.on_pad_event(PadEvent::ModePressed), Command::Nothing);
    assert_eq!(c.on_pad_event(PadEvent::ModeReleased), Command::Nothing);
    assert_eq!(c.phase(), Phase::Checking(GateCheck::ActiveTerminal, Purpose::Switch));
}

#[test]
fn switch_then_startup_reset_round_trip() {
    let mut store = StoreState { pointer: Some(Entry::LinkTo(Profile::Desktop)), backup: None };
    store.apply_all(&game_mode_plan());
    assert_eq!(store.pointer, Some(Entry::LinkTo(Profile::Game)));
    store.apply_all(&desktop_mode_plan());
    assert_eq!(store.pointer, Some(Entry::LinkTo(Profile::Desktop)));
}

#[test]
fn release_during_its_press_checks_ends_the_round() {
    let mut c = ModeSwitchController::new();
    assert_eq!(c.on_pad_event(PadEvent::ModePressed), Command::Query(GateCheck::ActiveTerminal));
    assert_eq!(c.on_gate_answer(Some(true)), Command::Query(GateCheck::GreeterForeground));
    assert_eq!(c.on_pad_event(PadEvent::ModeReleased), Command::Nothing);
    assert_eq!(c.phase(), Phase::Idle);
    assert!(!c.is_pressed());
    // late answers to the dropped round change nothing
    assert_eq!(c.on_gate_answer(Some(true)), Command::Nothing);
    assert_eq!(c.on_gate_answer(Some(false)), Command::Nothing);
    assert!(!c.is_pressed());
    // a later release, with no press since, does not switch
    assert_eq!(c.on_pad_event(PadEvent::ModeReleased), Command::Nothing);
    assert_eq!(c.phase(), Phase::Idle);
}
