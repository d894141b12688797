use vstd::prelude::*;
use crate::input::ControllerButton;

verus! {

/// The buttons of one controller, plus the phase of its two-step read protocol.
#[derive(Debug, Clone, Copy, PartialEq, Eq, Default)]
pub struct GamePad {
    pub up: bool,
    pub down: bool,
    pub left: bool,
    pub right: bool,
    pub b: bool,
    pub a: bool,
    pub c: bool,
    pub start: bool,
    /// Which half of the buttons the next status read exposes.
    pub port_select: bool,
}

/// The status byte of a pad: active-low button bits, with the half chosen by `select`.
pub open spec fn status_byte(pad: GamePad, select: bool) -> u8 {
    if !select {
        (255 - (if pad.start { 32int } else { 0 }) - (if pad.a { 16int } else { 0 })) as u8
    } else {
        (255 - (if pad.c { 32int } else { 0 }) - (if pad.b { 16int } else { 0 }) - (if pad.up {
            8int
        } else {
            0
        }) - (if pad.down { 4int } else { 0 }) - (if pad.left { 2int } else { 0 }) - (if pad.right {
            1int
        } else {
            0
        })) as u8
    }
}

impl GamePad {
    pub open spec fn spec_released() -> GamePad {
        GamePad {
            up: false,
            down: false,
            left: false,
            right: false,
            b: false,
            a: false,
            c: false,
            start: false,
            port_select: false,
        }
    }

    /// The pad with one button set to `pressed`.
    pub open spec fn spec_with_button(self, button: ControllerButton, pressed: bool) -> GamePad {
        match button {
            ControllerButton::Up => GamePad { up: pressed, ..self },
            ControllerButton::Down => GamePad { down: pressed, ..self },
            ControllerButton::Left => GamePad { left: pressed, ..self },
            ControllerButton::Right => GamePad { right: pressed, ..self },
            ControllerButton::B => GamePad { b: pressed, ..self },
            ControllerButton::A => GamePad { a: pressed, ..self },
            ControllerButton::Start => GamePad { start: pressed, ..self },
            ControllerButton::C => GamePad { c: pressed, ..self },
        }
    }

    pub fn with_button(self, button: ControllerButton, pressed: bool) -> (r: GamePad)
        ensures
            r == self.spec_with_button(button, pressed),
    {
        let mut p = self;
        match button {
            ControllerButton::Up => { p.up = pressed },
            ControllerButton::Down => { p.down = pressed },
            ControllerButton::Left => { p.left = pressed },
            ControllerButton::Right => { p.right = pressed },
            ControllerButton::B => { p.b = pressed },
            ControllerButton::A => { p.a = pressed },
            ControllerButton::Start => { p.start = pressed },
            ControllerButton::C => { p.c = pressed },
        }
        p
    }

    /// A pad with no button held, in the first phase of the read protocol.
    pub fn new() -> (r: GamePad)
        ensures
            r == GamePad::spec_released(),
    {
        GamePad {
            up: false,
            down: false,
            left: false,
            right: false,
            b: false,
            a: false,
            c: false,
            start: false,
            port_select: false,
        }
    }

    /// The byte that a status read exposes in the pad's current phase.
    pub fn status(&self) -> (r: u8)
        ensures
            r == status_byte(*self, self.port_select),
    {
        let mut byte: u8 = 255;
        if !self.port_select {
            if self.start {
                byte = byte - 32;
            }
            if self.a {
                byte = byte - 16;
            }
        } else {
            if self.c {
                byte = byte - 32;
            }
            if self.b {
                byte = byte - 16;
            }
            if self.up {
                byte = byte - 8;
            }
            if self.down {
                byte = byte - 4;
            }
            if self.left {
                byte = byte - 2;
            }
            if self.right {
                byte = byte - 1;
            }
        }
        byte
    }
}

} // verus!
