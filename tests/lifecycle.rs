use alvr_server::lifecycle::{
    shutdown_plan, Lifecycle, Phase, ReadyAction, ShutdownTrigger, Step, WindowKind,
    RESTART_GRACE_MS,
};
use tokio::sync::{broadcast, mpsc};

fn install(state: &mut Lifecycle) {
    let (control_tx, _) = mpsc::unbounded_channel();
    let (video_tx, _) = mpsc::unbounded_channel();
    let (haptics_tx, _) = mpsc::unbounded_channel();
    let (mirror_tx, _) = broadcast::channel(4);
    state
        .bridge
        .registry
        .install(control_tx, video_tx, haptics_tx, mirror_tx);
}

fn slots_absent(state: &Lifecycle) -> bool {
    let r = &state.bridge.registry;
    r.control_sender.is_none()
        && r.video_sender.is_none()
        && r.haptics_sender.is_none()
        && r.video_mirror_sender.is_none()
}

#[test]
fn driver_ready_twice_starts_handshake_once() {
    let mut state = Lifecycle::new(None, true);
    let first = state.driver_ready_idle(true);
    let second = state.driver_ready_idle(true);
    assert_eq!(
        first,
        ReadyAction {
            set_chaperone: true,
            start_handshake: true
        }
    );
    assert_eq!(
        second,
        ReadyAction {
            set_chaperone: false,
            start_handshake: false
        }
    );
    assert!(state.is_alive);
}

#[test]
fn driver_ready_without_default_bounds() {
    let mut state = Lifecycle::new(None, true);
    let r = state.driver_ready_idle(false);
    assert!(r.start_handshake);
    assert!(!r.set_chaperone);
}

#[test]
fn handshake_restarts_after_it_finished() {
    let mut state = Lifecycle::new(None, true);
    assert!(state.driver_ready_idle(false).start_handshake);
    state.handshake_finished();
    assert!(state.driver_ready_idle(false).start_handshake);
}

#[test]
fn shutdown_clears_liveness_and_slots() {
    let mut state = Lifecycle::new(Some(WindowKind::Embedded), true);
    state.driver_ready_idle(false);
    install(&mut state);
    assert!(state.bridge.registry.has_session());
    let window = state.shutdown_runtimes();
    assert_eq!(window, Some(WindowKind::Embedded));
    assert!(!state.is_alive);
    assert!(slots_absent(&state));
    assert!(!state.runtime_active);
    assert_eq!(state.window, None);
    assert_eq!(state.phase, Phase::Stopped);
}

#[test]
fn shutdown_leaves_browser_alone() {
    let mut state = Lifecycle::new(Some(WindowKind::Browser), true);
    assert_eq!(state.shutdown_runtimes(), None);
    assert_eq!(state.window, None);
}

#[test]
fn plans_in_order() {
    let teardown = vec![
        Step::EmitServerQuitting,
        Step::ClearLiveness,
        Step::CloseWindow,
        Step::DropRuntime,
    ];
    assert_eq!(shutdown_plan(ShutdownTrigger::Runtimes), teardown);
    let mut driver = vec![Step::NotifyRestart, Step::WaitGrace];
    driver.extend(teardown.iter().copied());
    driver.push(Step::ShutdownNative);
    assert_eq!(shutdown_plan(ShutdownTrigger::Driver), driver);
    let mut restart = driver.clone();
    restart.push(Step::RelaunchDriver);
    assert_eq!(shutdown_plan(ShutdownTrigger::RestartDriver), restart);
    let mut update = driver.clone();
    update.push(Step::ApplyUpdate);
    assert_eq!(shutdown_plan(ShutdownTrigger::ApplicationUpdate), update);
    assert_eq!(RESTART_GRACE_MS, 100);
}

#[test]
fn restart_waiter_wakes_while_alive() {
    let mut state = Lifecycle::new(None, true);
    state.driver_ready_idle(false);
    install(&mut state);
    let plan = shutdown_plan(ShutdownTrigger::RestartDriver);
    let mut woke_while_alive = false;
    let mut grace_seen = false;
    for step in plan {
        match step {
            Step::WaitGrace => grace_seen = true,
            Step::NotifyRestart => {}
            _ => assert!(grace_seen),
        }
        state.apply_step(step);
        if step == Step::NotifyRestart {
            // a parked waiter wakes and reads the flag
            woke_while_alive = state.take_restart_signal() && state.is_alive;
        }
    }
    assert!(woke_while_alive);
    assert!(!state.is_alive);
    assert!(slots_absent(&state));
}

#[test]
fn restart_signal_is_cleared_on_read() {
    let mut state = Lifecycle::new(None, false);
    assert!(!state.take_restart_signal());
    state.apply_step(Step::NotifyRestart);
    assert!(state.take_restart_signal());
    assert!(!state.take_restart_signal());
}
