use vstd::prelude::*;
use crate::input::{InputCommand, KeyState};
use crate::registers::SystemControl;

verus! {

/// Whether the console is running, paused, or waiting for its first input.
#[derive(Debug, Clone, Copy, PartialEq, Eq, Structural)]
pub enum PlayState {
    WasmInit,
    Playing,
    Paused,
}

impl PlayState {
    /// The play state after one bound input in state `key`: any input starts a console
    /// that waits for its first, and a released play/pause key toggles.
    pub open spec fn spec_after_input(self, command: InputCommand, key: KeyState) -> PlayState {
        let s = if self == PlayState::WasmInit {
            PlayState::Playing
        } else {
            self
        };
        if command == InputCommand::PlayPause && key == KeyState::JustReleased {
            if s == PlayState::Playing {
                PlayState::Paused
            } else {
                PlayState::Playing
            }
        } else {
            s
        }
    }

    pub fn after_input(self, command: InputCommand, key: KeyState) -> (r: PlayState)
        ensures
            r == self.spec_after_input(command, key),
    {
        let s = match self {
            PlayState::WasmInit => PlayState::Playing,
            other => other,
        };
        match (command, key) {
            (InputCommand::PlayPause, KeyState::JustReleased) => match s {
                PlayState::Playing => PlayState::Paused,
                _ => PlayState::Playing,
            },
            _ => s,
        }
    }
}

impl SystemControl {
    /// Applies a bound input to the controllers: a controller button takes the pressed
    /// state of its key; session commands leave the controllers alone.
    pub fn apply_input(&mut self, command: InputCommand, key: KeyState)
        ensures
            *final(self) == match command {
                InputCommand::Controller1(b) => old(self).spec_with_button(0, b, key.spec_is_pressed()),
                InputCommand::Controller2(b) => old(self).spec_with_button(1, b, key.spec_is_pressed()),
                _ => *old(self),
            },
    {
        match command {
            InputCommand::Controller1(b) => self.set_gamepad_button(0, b, key.is_pressed()),
            InputCommand::Controller2(b) => self.set_gamepad_button(1, b, key.is_pressed()),
            _ => {},
        }
    }
}

} // verus!
