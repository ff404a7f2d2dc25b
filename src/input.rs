use vstd::prelude::*;

verus! {

/// The physical keys that the camera and the window react to.
#[derive(Clone, Copy, Debug, PartialEq, Eq, Structural)]
pub enum Key {
    KeyW,
    KeyA,
    KeyS,
    KeyD,
    KeyE,
    KeyQ,
    KeyC,
    KeyZ,
    ArrowUp,
    ArrowDown,
    ArrowLeft,
    ArrowRight,
    Backquote,
    Space,
    Escape,
    /// Any key without a meaning here.
    Other,
}

/// A named camera intent: held while its key is down.
#[derive(Clone, Copy, Debug, PartialEq, Eq, Structural)]
pub enum Intent {
    Forward,
    Backward,
    YawLeft,
    YawRight,
    PitchUp,
    PitchDown,
    RollCw,
    RollCcw,
    DebugDump,
}

/// The key bindings. Several keys may drive one intent.
pub open spec fn intent_of(key: Key) -> Option<Intent> {
    match key {
        Key::KeyW | Key::ArrowUp => Some(Intent::Forward),
        Key::KeyS | Key::ArrowDown => Some(Intent::Backward),
        Key::KeyA | Key::ArrowLeft => Some(Intent::YawLeft),
        Key::KeyD | Key::ArrowRight => Some(Intent::YawRight),
        Key::KeyE => Some(Intent::PitchUp),
        Key::KeyQ => Some(Intent::PitchDown),
        Key::KeyC => Some(Intent::RollCw),
        Key::KeyZ => Some(Intent::RollCcw),
        Key::Backquote => Some(Intent::DebugDump),
        _ => None,
    }
}

/// Looks up the intent bound to `key`, if any.
pub fn intent_for_key(key: Key) -> (r: Option<Intent>)
    ensures
        r == intent_of(key),
{
    match key {
        Key::KeyW | Key::ArrowUp => Some(Intent::Forward),
        Key::KeyS | Key::ArrowDown => Some(Intent::Backward),
        Key::KeyA | Key::ArrowLeft => Some(Intent::YawLeft),
        Key::KeyD | Key::ArrowRight => Some(Intent::YawRight),
        Key::KeyE => Some(Intent::PitchUp),
        Key::KeyQ => Some(Intent::PitchDown),
        Key::KeyC => Some(Intent::RollCw),
        Key::KeyZ => Some(Intent::RollCcw),
        Key::Backquote => Some(Intent::DebugDump),
        _ => None,
    }
}

} // verus!
