use phantom::pipeline::capture::{InputTrackerConfig, MouseButton};
use phantom::pipeline::input::{
    classify, is_modifier_key, InputEvent, InputEventKind, InputTracker, RawButton, RawInput,
};

fn key(name: &str) -> RawInput {
    RawInput::KeyPress { key_name: name.to_string() }
}

#[test]
fn modifier_keys_make_combos() {
    for m in ["ControlLeft", "ControlRight", "Alt", "AltGr", "MetaLeft", "MetaRight", "ShiftLeft", "ShiftRight"] {
        assert!(is_modifier_key(m));
    }
    assert!(!is_modifier_key("KeyA"));
    assert!(!is_modifier_key("Return"));
    match classify(key("ControlLeft"), true) {
        Some(InputEventKind::KeyPress { key_name, is_combo }) => {
            assert_eq!(key_name, "ControlLeft");
            assert!(is_combo);
        }
        _ => panic!("expected a key press"),
    }
    assert!(matches!(classify(key("KeyS"), true), Some(InputEventKind::KeyPress { is_combo: false, .. })));
}

#[test]
fn clicks_keep_positions_only_when_asked() {
    let click = |b| RawInput::ButtonPress { button: b, has_name: true };
    assert!(matches!(
        classify(click(RawButton::Left), true),
        Some(InputEventKind::MouseClick { button: MouseButton::Left, position: Some((0, 0)) })
    ));
    assert!(matches!(
        classify(click(RawButton::Right), false),
        Some(InputEventKind::MouseClick { button: MouseButton::Right, position: None })
    ));
    assert!(matches!(
        classify(RawInput::ButtonPress { button: RawButton::Middle, has_name: false }, true),
        Some(InputEventKind::MouseClick { button: MouseButton::Middle, position: None })
    ));
    assert!(classify(click(RawButton::Other), true).is_none());
    assert!(matches!(classify(RawInput::Wheel { delta_y: -3 }, true), Some(InputEventKind::MouseScroll { delta_y: -3 })));
    assert!(classify(RawInput::Other, true).is_none());
}

#[test]
fn tracker_records_only_while_listening() {
    let mut t = InputTracker::new(InputTrackerConfig { enabled: true, capture_mouse_position: false });
    t.record(key("KeyA"), 5);
    assert!(t.start());
    t.record(key("KeyA"), 10);
    t.record(RawInput::Other, 11);
    t.record(RawInput::Wheel { delta_y: 1 }, 12);
    let events = t.stop();
    assert_eq!(events.len(), 2);
    assert_eq!(events[0].timestamp_ms, 10);
    assert_eq!(events[1].timestamp_ms, 12);
    t.record(key("KeyB"), 20);
    assert!(t.stop().is_empty());
}

#[test]
fn disabled_tracker_keeps_nothing() {
    let mut t = InputTracker::new(InputTrackerConfig { enabled: false, capture_mouse_position: true });
    assert!(!t.start());
    t.record(key("KeyA"), 1);
    t.push(InputEvent { timestamp_ms: 2, kind: InputEventKind::MouseScroll { delta_y: 1 } });
    assert!(t.stop().is_empty());
    let mut on = InputTracker::new(InputTrackerConfig { enabled: true, capture_mouse_position: true });
    on.push(InputEvent { timestamp_ms: 2, kind: InputEventKind::MouseScroll { delta_y: 1 } });
    assert_eq!(on.stop().len(), 1);
}
