use gloom::input::{handle_event, HealthFlag, PressedKeys, WindowInput};

const ESCAPE: u32 = 36;

#[test]
fn press_then_release_round_trip() {
    let mut keys = PressedKeys::new();
    keys.press(10);
    let before = keys.to_vec();
    keys.press(13);
    assert!(keys.contains(13));
    keys.release(13);
    assert_eq!(keys.to_vec(), before);
    assert!(!keys.contains(13));
}

#[test]
fn repeated_press_is_idempotent() {
    let mut keys = PressedKeys::new();
    keys.press(10);
    keys.press(10);
    assert_eq!(keys.len(), 1);
    keys.release(10);
    assert_eq!(keys.len(), 0);
    keys.release(10);
    assert_eq!(keys.len(), 0);
}

#[test]
fn release_keeps_other_keys_in_order() {
    let mut keys = PressedKeys::new();
    keys.key_event(1, true);
    keys.key_event(2, true);
    keys.key_event(3, true);
    keys.key_event(2, false);
    assert_eq!(keys.to_vec(), vec![1, 3]);
}

#[test]
fn render_panic_stops_event_loop() {
    let mut health = HealthFlag::new();
    assert!(health.is_healthy());
    assert!(health.record_join(false));
    assert!(!health.is_healthy());
    assert!(!health.record_join(false));
    assert!(!health.record_join(true));
    assert!(!health.is_healthy());
    let mut keys = PressedKeys::new();
    assert!(handle_event(&mut keys, health.is_healthy(), WindowInput::Other, ESCAPE));
}

#[test]
fn normal_join_keeps_health() {
    let mut health = HealthFlag::new();
    assert!(!health.record_join(true));
    assert!(health.is_healthy());
}

#[test]
fn event_loop_decisions() {
    let mut keys = PressedKeys::new();
    assert!(!handle_event(&mut keys, true, WindowInput::Other, ESCAPE));
    assert!(handle_event(&mut keys, true, WindowInput::CloseRequested, ESCAPE));
    assert!(!handle_event(&mut keys, true, WindowInput::Key { key: 10, pressed: true }, ESCAPE));
    assert!(keys.contains(10));
    assert!(!handle_event(&mut keys, true, WindowInput::Key { key: 10, pressed: false }, ESCAPE));
    assert!(!keys.contains(10));
    assert!(handle_event(&mut keys, true, WindowInput::Key { key: ESCAPE, pressed: true }, ESCAPE));
    assert!(keys.contains(ESCAPE));
}
