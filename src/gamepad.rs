//! Input from the host: the last key pressed, written to a fixed cell.
use vstd::prelude::*;

use crate::cpu::CPU;

verus! {

/// The cell that holds the code of the last key pressed.
pub const GAMEPAD_ADDRESS: u8 = 0xFF;

/// The cell where the host leaves a fresh random byte before each step.
pub const RANDOM_ADDRESS: u8 = 0xFE;

/// The buttons, with the codes agreed with the running program.
#[derive(Clone, Copy, Debug, PartialEq, Eq, Structural)]
pub enum Gamepad {
    A,
    B,
    Select,
    Start,
    Up,
    Down,
    Left,
    Right,
}

/// The byte written for a button.
pub open spec fn button_code(g: Gamepad) -> u8 {
    match g {
        Gamepad::A => 0x80,
        Gamepad::B => 0x40,
        Gamepad::Select => 0x20,
        Gamepad::Start => 0x10,
        Gamepad::Up => 0x77,
        Gamepad::Down => 0x73,
        Gamepad::Left => 0x61,
        Gamepad::Right => 0x64,
    }
}

impl Gamepad {
    pub fn bits(&self) -> (r: u8)
        ensures
            r == button_code(*self),
    {
        match self {
            Gamepad::A => 0x80,
            Gamepad::B => 0x40,
            Gamepad::Select => 0x20,
            Gamepad::Start => 0x10,
            Gamepad::Up => 0x77,
            Gamepad::Down => 0x73,
            Gamepad::Left => 0x61,
            Gamepad::Right => 0x64,
        }
    }
}

impl CPU {
    /// Records `gamepad` as the last key pressed.
    pub fn set_gamepad_button(&mut self, gamepad: Gamepad)
        ensures
            final(self)@ == old(self)@.write8(GAMEPAD_ADDRESS as u16, button_code(gamepad)),
    {
        self.mem_write(GAMEPAD_ADDRESS as u16, gamepad.bits());
    }
}

} // verus!
