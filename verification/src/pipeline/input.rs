//! Input tracking during a recording: which keyboard and mouse events enter the
//! timeline, and how they are described.
//!
//! Typed text is never stored, only key names and timestamps; mouse positions
//! are kept only when the configuration asks for them.
use vstd::prelude::*;
use crate::pipeline::capture::{InputTrackerConfig, MouseButton};
use crate::text::str_eq;

verus! {

/// A mouse button as the input listener reports it.
#[derive(Debug, Clone, Copy, PartialEq, Eq, Structural)]
pub enum RawButton {
    Left,
    Right,
    Middle,
    /// Any other button (side buttons and the like).
    Other,
}

/// An event as the global input listener reports it, read into plain values.
pub enum RawInput {
    /// A key went down; `key_name` is the listener's name of the key
    /// (`"KeyA"`, `"ControlLeft"`, …).
    KeyPress { key_name: String },
    /// A mouse button went down; `has_name` tells whether the listener named
    /// the event.
    ButtonPress { button: RawButton, has_name: bool },
    /// The wheel turned (positive is down).
    Wheel { delta_y: i64 },
    /// Anything else (releases, moves).
    Other,
}

/// What the timeline records of an event.
pub enum InputEventKind {
    /// A key press: its name, and whether it is a modifier key (part of a combo).
    KeyPress { key_name: String, is_combo: bool },
    /// A button press, with its position only where positions are recorded.
    MouseClick { button: MouseButton, position: Option<(i32, i32)> },
    /// A wheel turn (positive is down).
    MouseScroll { delta_y: i64 },
}

/// One timeline entry.
pub struct InputEvent {
    /// Milliseconds since the recording started.
    pub timestamp_ms: u64,
    pub kind: InputEventKind,
}

/// The modifier keys: Control, Alt, AltGr, Meta and Shift (left and right).
pub open spec fn is_modifier_name(key_name: Seq<char>) -> bool {
    key_name == "ControlLeft"@ || key_name == "ControlRight"@ || key_name == "Alt"@
        || key_name == "AltGr"@ || key_name == "MetaLeft"@ || key_name == "MetaRight"@
        || key_name == "ShiftLeft"@ || key_name == "ShiftRight"@
}

/// Whether the key named `key_name` is a modifier key.
pub fn is_modifier_key(key_name: &str) -> (b: bool)
    ensures
        b == is_modifier_name(key_name@),
{
    str_eq(key_name, "ControlLeft") || str_eq(key_name, "ControlRight") || str_eq(key_name, "Alt")
        || str_eq(key_name, "AltGr") || str_eq(key_name, "MetaLeft") || str_eq(key_name, "MetaRight")
        || str_eq(key_name, "ShiftLeft") || str_eq(key_name, "ShiftRight")
}

/// The recorded position of a click: a placeholder origin where positions are
/// recorded and the listener named the event, none otherwise.
pub open spec fn click_position(capture_mouse: bool, has_name: bool) -> Option<(i32, i32)> {
    if capture_mouse && has_name { Some((0i32, 0i32)) } else { None }
}

/// Whether the timeline records a raw event: key presses, left, right and
/// middle clicks, and wheel turns.
pub open spec fn is_recorded(ev: RawInput) -> bool {
    match ev {
        RawInput::KeyPress { .. } => true,
        RawInput::ButtonPress { button, .. } => button != RawButton::Other,
        RawInput::Wheel { .. } => true,
        RawInput::Other => false,
    }
}

/// `k` is what the timeline records of the raw event `ev`: a key press by name
/// with its modifier flag, a click with its button and (where recorded) its
/// position, a wheel turn with its delta.
pub open spec fn classified(ev: RawInput, capture_mouse: bool, k: InputEventKind) -> bool {
    match ev {
        RawInput::KeyPress { key_name } => k matches InputEventKind::KeyPress { key_name: n, is_combo }
            && n@ == key_name@ && is_combo == is_modifier_name(key_name@),
        RawInput::ButtonPress { button, has_name } => k matches InputEventKind::MouseClick { button: b, position }
            && position == click_position(capture_mouse, has_name)
            && b == match button {
                RawButton::Left => MouseButton::Left,
                RawButton::Right => MouseButton::Right,
                _ => MouseButton::Middle,
            },
        RawInput::Wheel { delta_y } => k matches InputEventKind::MouseScroll { delta_y: d } && d == delta_y,
        RawInput::Other => false,
    }
}

/// What the timeline records of a raw event, if anything.
pub fn classify(ev: RawInput, capture_mouse: bool) -> (k: Option<InputEventKind>)
    ensures
        k is Some <==> is_recorded(ev),
        k matches Some(x) ==> classified(ev, capture_mouse, x),
{
    match ev {
        RawInput::KeyPress { key_name } => {
            let is_combo = is_modifier_key(key_name.as_str());
            Some(InputEventKind::KeyPress { key_name, is_combo })
        },
        RawInput::ButtonPress { button, has_name } => {
            let b = match button {
                RawButton::Left => MouseButton::Left,
                RawButton::Right => MouseButton::Right,
                RawButton::Middle => MouseButton::Middle,
                RawButton::Other => {
                    return None;
                },
            };
            let position = if capture_mouse && has_name { Some((0i32, 0i32)) } else { None };
            Some(InputEventKind::MouseClick { button: b, position })
        },
        RawInput::Wheel { delta_y } => Some(InputEventKind::MouseScroll { delta_y }),
        RawInput::Other => None,
    }
}

/// Collects input events during a recording.
pub struct InputTracker {
    config: InputTrackerConfig,
    events: Vec<InputEvent>,
    listening: bool,
}

impl InputTracker {
    /// The events collected so far, oldest first.
    pub closed spec fn spec_events(&self) -> Seq<InputEvent> {
        self.events@
    }

    /// The configuration the tracker was made with.
    pub closed spec fn spec_config(&self) -> InputTrackerConfig {
        self.config
    }

    /// Whether listener events are being recorded.
    pub closed spec fn spec_listening(&self) -> bool {
        self.listening
    }

    /// A tracker with nothing collected, not yet listening.
    pub fn new(config: InputTrackerConfig) -> (t: Self)
        ensures
            t.spec_config() == config,
            t.spec_events().len() == 0,
            !t.spec_listening(),
    {
        InputTracker { config, events: Vec::new(), listening: false }
    }

    /// Starts listening, when tracking is enabled; returns whether it did (the
    /// caller then runs the listener).
    pub fn start(&mut self) -> (b: bool)
        ensures
            b == old(self).spec_config().enabled,
            final(self).spec_config() == old(self).spec_config(),
            final(self).spec_events() == old(self).spec_events(),
            final(self).spec_listening() == (old(self).spec_listening() || b),
    {
        if self.config.enabled {
            self.listening = true;
        }
        self.config.enabled
    }

    /// Records a listener event at `timestamp_ms`: while listening, the
    /// event's classification is appended when it has one; otherwise nothing.
    pub fn record(&mut self, ev: RawInput, timestamp_ms: u64)
        ensures
            final(self).spec_config() == old(self).spec_config(),
            final(self).spec_listening() == old(self).spec_listening(),
            old(self).spec_listening() && is_recorded(ev) ==> {
                &&& final(self).spec_events().len() == old(self).spec_events().len() + 1
                &&& final(self).spec_events().drop_last() == old(self).spec_events()
                &&& final(self).spec_events().last().timestamp_ms == timestamp_ms
                &&& classified(ev, old(self).spec_config().capture_mouse_position, final(self).spec_events().last().kind)
            },
            !(old(self).spec_listening() && is_recorded(ev)) ==> final(self).spec_events() == old(self).spec_events(),
    {
        if self.listening {
            match classify(ev, self.config.capture_mouse_position) {
                Some(kind) => {
                    self.events.push(InputEvent { timestamp_ms, kind });
                    assert(self.events@.drop_last() =~= old(self).events@);
                },
                None => {},
            }
        }
    }

    /// Adds an event from elsewhere (tests, the interface), when tracking is
    /// enabled.
    pub fn push(&mut self, event: InputEvent)
        ensures
            final(self).spec_config() == old(self).spec_config(),
            final(self).spec_listening() == old(self).spec_listening(),
            old(self).spec_config().enabled ==> final(self).spec_events() == old(self).spec_events().push(event),
            !old(self).spec_config().enabled ==> final(self).spec_events() == old(self).spec_events(),
    {
        if self.config.enabled {
            self.events.push(event);
        }
    }

    /// Stops listening and hands over every collected event, oldest first,
    /// leaving none behind.
    pub fn stop(&mut self) -> (events: Vec<InputEvent>)
        ensures
            events@ == old(self).spec_events(),
            final(self).spec_events().len() == 0,
            !final(self).spec_listening(),
            final(self).spec_config() == old(self).spec_config(),
    {
        self.listening = false;
        let mut events: Vec<InputEvent> = Vec::new();
        std::mem::swap(&mut events, &mut self.events);
        events
    }
}

} // verus!
