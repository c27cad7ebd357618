use input_simulator::events::{DeviceEvent, KeyCode, KEY_NUMERIC_0};
use input_simulator::simulation::{
    initialize_simulation_keys, simulation_mode, Action, HoldBehaviorMode, KeyBehaviorMode,
    Phase, Simulation, SimulationMode, CLICK_PAUSE_MS, CLICK_REST_MS, SIMULATION_HOLD_DELAY_MS,
};

fn key(code: u16) -> KeyCode {
    KeyCode { code }
}

fn down(code: u16) -> DeviceEvent {
    DeviceEvent::Key { code: key(code), value: 1 }
}

fn up(code: u16) -> DeviceEvent {
    DeviceEvent::Key { code: key(code), value: 0 }
}

fn write(sim: &mut Simulation, running: bool, interval: u64) -> Vec<DeviceEvent> {
    match sim.step(running, interval) {
        Action::Write(events) => events,
        other => panic!("expected a write, got {:?}", other),
    }
}

fn sleep(sim: &mut Simulation, running: bool, interval: u64) -> u64 {
    match sim.step(running, interval) {
        Action::Sleep(ms) => ms,
        other => panic!("expected a sleep, got {:?}", other),
    }
}

fn recheck(sim: &mut Simulation, running: bool, interval: u64) {
    match sim.step(running, interval) {
        Action::Recheck => {}
        other => panic!("expected a recheck, got {:?}", other),
    }
}

fn finish(sim: &mut Simulation, running: bool, interval: u64) {
    match sim.step(running, interval) {
        Action::Finish => {}
        other => panic!("expected the end, got {:?}", other),
    }
}

const A: u16 = 30;
const B: u16 = 48;
const X: u16 = 45;

#[test]
fn mode_selection() {
    assert_eq!(
        simulation_mode(KeyBehaviorMode::Click, HoldBehaviorMode::Cycle),
        SimulationMode::Click
    );
    assert_eq!(
        simulation_mode(KeyBehaviorMode::Click, HoldBehaviorMode::Continuous),
        SimulationMode::Click
    );
    assert_eq!(
        simulation_mode(KeyBehaviorMode::Hold, HoldBehaviorMode::Continuous),
        SimulationMode::HoldContinuous
    );
    assert_eq!(
        simulation_mode(KeyBehaviorMode::Hold, HoldBehaviorMode::Cycle),
        SimulationMode::HoldCycle
    );
}

#[test]
fn click_cycle_with_two_keys() {
    let mut sim = Simulation::new(vec![key(A), key(B)], SimulationMode::Click);
    assert_eq!(write(&mut sim, true, 100), vec![DeviceEvent::Sync]);
    for _ in 0..2 {
        assert_eq!(write(&mut sim, true, 100), vec![down(KEY_NUMERIC_0), DeviceEvent::Sync]);
        assert_eq!(write(&mut sim, false, 100), vec![up(A), up(B), DeviceEvent::Sync]);
        assert_eq!(sleep(&mut sim, false, 100), CLICK_PAUSE_MS);
        assert_eq!(write(&mut sim, false, 100), vec![down(KEY_NUMERIC_0), DeviceEvent::Sync]);
        assert_eq!(write(&mut sim, false, 100), vec![up(A), up(B), DeviceEvent::Sync]);
        assert_eq!(sleep(&mut sim, false, 100), 1000);
        assert_eq!(sleep(&mut sim, false, 100), CLICK_REST_MS);
        assert_eq!(CLICK_REST_MS, 5000);
    }
    finish(&mut sim, false, 100);
    assert_eq!(sim.phase, Phase::Finished);
    finish(&mut sim, true, 100);
}

#[test]
fn click_not_running_writes_only_initial_sync() {
    let mut sim = Simulation::new(vec![key(A)], SimulationMode::Click);
    assert_eq!(write(&mut sim, false, 100), vec![DeviceEvent::Sync]);
    finish(&mut sim, false, 100);
}

#[test]
fn cycle_with_no_keys_only_sleeps() {
    let mut sim = Simulation::new(Vec::new(), SimulationMode::HoldCycle);
    assert_eq!(write(&mut sim, true, 50), vec![DeviceEvent::Sync]);
    assert_eq!(sleep(&mut sim, true, 50), SIMULATION_HOLD_DELAY_MS);
    for _ in 0..5 {
        assert_eq!(sleep(&mut sim, true, 50), 50);
    }
    finish(&mut sim, false, 50);
}

#[test]
fn continuous_hold_single_key() {
    let mut sim = Simulation::new(vec![key(X)], SimulationMode::HoldContinuous);
    assert_eq!(write(&mut sim, true, 100), vec![DeviceEvent::Sync]);
    assert_eq!(sleep(&mut sim, true, 100), SIMULATION_HOLD_DELAY_MS);
    assert_eq!(write(&mut sim, false, 100), vec![down(X), DeviceEvent::Sync]);
    for _ in 0..3 {
        assert_eq!(write(&mut sim, true, 100), vec![DeviceEvent::Sync]);
    }
    assert_eq!(write(&mut sim, false, 100), vec![up(X), DeviceEvent::Sync]);
    finish(&mut sim, true, 100);
}

#[test]
fn continuous_hold_releases_every_pressed_key_once() {
    let keys = vec![key(A), key(B), key(A)];
    let mut sim = Simulation::new(keys, SimulationMode::HoldContinuous);
    let mut all = Vec::new();
    let mut beats = 0;
    loop {
        let running = beats < 4;
        match sim.step(running, 10) {
            Action::Write(events) => {
                if events == vec![DeviceEvent::Sync] {
                    beats += 1;
                }
                all.extend(events)
            }
            Action::Finish => break,
            _ => {}
        }
    }
    let presses: Vec<usize> = (0..all.len()).filter(|&i| matches!(all[i], DeviceEvent::Key { value: 1, .. })).collect();
    let releases: Vec<usize> = (0..all.len()).filter(|&i| matches!(all[i], DeviceEvent::Key { value: 0, .. })).collect();
    assert_eq!(presses.len(), 3);
    assert_eq!(releases.len(), 3);
    assert!(presses.iter().max() < releases.iter().min());
    for (p, r) in presses.iter().zip(releases.iter()) {
        match (all[*p], all[*r]) {
            (DeviceEvent::Key { code: c1, .. }, DeviceEvent::Key { code: c2, .. }) => {
                assert_eq!(c1, c2)
            }
            _ => unreachable!(),
        }
    }
}

#[test]
fn cycle_presses_and_releases_each_key_in_turn() {
    let mut sim = Simulation::new(vec![key(A), key(B)], SimulationMode::HoldCycle);
    assert_eq!(write(&mut sim, true, 80), vec![DeviceEvent::Sync]);
    assert_eq!(sleep(&mut sim, true, 80), SIMULATION_HOLD_DELAY_MS);
    recheck(&mut sim, true, 80);
    assert_eq!(write(&mut sim, true, 999), vec![down(A), DeviceEvent::Sync]);
    assert_eq!(sleep(&mut sim, false, 999), 80);
    assert_eq!(write(&mut sim, false, 999), vec![up(A), DeviceEvent::Sync]);
    assert_eq!(write(&mut sim, true, 999), vec![down(B), DeviceEvent::Sync]);
    assert_eq!(sleep(&mut sim, true, 999), 80);
    assert_eq!(write(&mut sim, true, 999), vec![up(B), DeviceEvent::Sync]);
    // A new pass picks up the new interval.
    recheck(&mut sim, true, 120);
    assert_eq!(write(&mut sim, true, 5), vec![down(A), DeviceEvent::Sync]);
    assert_eq!(sleep(&mut sim, true, 5), 120);
}

#[test]
fn cycle_stop_before_press_leaves_key_unpressed() {
    let mut sim = Simulation::new(vec![key(A), key(B)], SimulationMode::HoldCycle);
    write(&mut sim, true, 40);
    sleep(&mut sim, true, 40);
    recheck(&mut sim, true, 40);
    assert_eq!(write(&mut sim, true, 40), vec![down(A), DeviceEvent::Sync]);
    sleep(&mut sim, true, 40);
    assert_eq!(write(&mut sim, true, 40), vec![up(A), DeviceEvent::Sync]);
    recheck(&mut sim, false, 40);
    finish(&mut sim, false, 40);
}

#[test]
fn initialize_keeps_mapped_keys_in_order() {
    let mapped = [Some(key(A)), None, Some(key(B)), Some(key(A)), None];
    let mut selected = vec![key(X)];
    let mut behavior = KeyBehaviorMode::Click;
    initialize_simulation_keys(&mapped, KeyBehaviorMode::Hold, &mut selected, &mut behavior);
    assert_eq!(selected, vec![key(A), key(B), key(A)]);
    assert_eq!(behavior, KeyBehaviorMode::Hold);
}

#[test]
fn initialize_with_nothing_mapped_is_empty() {
    let mut selected = vec![key(X), key(A)];
    let mut behavior = KeyBehaviorMode::Hold;
    initialize_simulation_keys(&[None, None], KeyBehaviorMode::Click, &mut selected, &mut behavior);
    assert!(selected.is_empty());
    assert_eq!(behavior, KeyBehaviorMode::Click);
}
