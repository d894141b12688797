use vstd::prelude::*;

verus! {

/// A button of a controller.
#[derive(Debug, Clone, Copy, PartialEq, Eq, Structural, Hash)]
pub enum ControllerButton {
    Up,
    Down,
    Left,
    Right,
    B,
    A,
    Start,
    C,
}

/// What a host input is bound to: a button of either controller, or a session command.
#[derive(Debug, Clone, Copy, PartialEq, Eq, Structural, Hash)]
pub enum InputCommand {
    Controller1(ControllerButton),
    Controller2(ControllerButton),
    PlayPause,
    SoftReset,
    HardReset,
}

/// The state of a bound input across frames, with its edges.
#[derive(Debug, Clone, Copy, PartialEq, Eq, Structural, Hash)]
pub enum KeyState {
    JustPressed,
    Held,
    JustReleased,
    Released,
}

impl KeyState {
    pub open spec fn spec_is_pressed(self) -> bool {
        self == KeyState::JustPressed || self == KeyState::Held
    }

    /// The state after an input event that reports the key as `pressed` or not.
    pub open spec fn spec_update_state(self, pressed: bool) -> KeyState {
        if pressed {
            match self {
                KeyState::Held => KeyState::Held,
                _ => KeyState::JustPressed,
            }
        } else {
            match self {
                KeyState::JustReleased | KeyState::Released => KeyState::Released,
                _ => KeyState::JustReleased,
            }
        }
    }

    /// The state one frame later with no new event: edges settle.
    pub open spec fn spec_update(self) -> KeyState {
        match self {
            KeyState::JustPressed | KeyState::Held => KeyState::Held,
            _ => KeyState::Released,
        }
    }

    pub fn is_pressed(&self) -> (r: bool)
        ensures
            r == self.spec_is_pressed(),
    {
        match self {
            KeyState::JustPressed => true,
            KeyState::Held => true,
            KeyState::JustReleased => false,
            KeyState::Released => false,
        }
    }

    /// The state of a key first seen in an event.
    pub fn new(pressed: bool) -> (r: KeyState)
        ensures
            r == (if pressed { KeyState::JustPressed } else { KeyState::Released }),
    {
        if pressed {
            return KeyState::JustPressed;
        }
        KeyState::Released
    }

    pub fn update_state(&self, pressed: bool) -> (r: KeyState)
        ensures
            r == self.spec_update_state(pressed),
            r.spec_is_pressed() == pressed,
    {
        if pressed {
            return match self {
                KeyState::JustPressed => KeyState::JustPressed,
                KeyState::Held => KeyState::Held,
                KeyState::JustReleased => KeyState::JustPressed,
                KeyState::Released => KeyState::JustPressed,
            };
        }
        match self {
            KeyState::JustPressed => KeyState::JustReleased,
            KeyState::Held => KeyState::JustReleased,
            KeyState::JustReleased => KeyState::Released,
            KeyState::Released => KeyState::Released,
        }
    }

    pub fn update(&self) -> (r: KeyState)
        ensures
            r == self.spec_update(),
            r.spec_is_pressed() == self.spec_is_pressed(),
    {
        match self {
            KeyState::JustPressed => KeyState::Held,
            KeyState::Held => KeyState::Held,
            KeyState::JustReleased => KeyState::Released,
            KeyState::Released => KeyState::Released,
        }
    }
}

} // verus!
