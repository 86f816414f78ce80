//! The keypad: sixteen keys, laid out on the left of a QWERTY keyboard.
//!
//! ```text
//!  keyboard   keypad
//!  1 2 3 4    1 2 3 C
//!  Q W E R    4 5 6 D
//!  A S D F    7 8 9 E
//!  Z X C V    A 0 B F
//! ```
//!
//! A physical key is named by its scancode: the number that the USB
//! keyboard usage page gives to its position.

use vstd::prelude::*;

verus! {

pub const SCANCODE_A: i32 = 4;

pub const SCANCODE_C: i32 = 6;

pub const SCANCODE_D: i32 = 7;

pub const SCANCODE_E: i32 = 8;

pub const SCANCODE_F: i32 = 9;

pub const SCANCODE_Q: i32 = 20;

pub const SCANCODE_R: i32 = 21;

pub const SCANCODE_S: i32 = 22;

pub const SCANCODE_V: i32 = 25;

pub const SCANCODE_W: i32 = 26;

pub const SCANCODE_X: i32 = 27;

pub const SCANCODE_Z: i32 = 29;

pub const SCANCODE_NUM1: i32 = 30;

pub const SCANCODE_NUM2: i32 = 31;

pub const SCANCODE_NUM3: i32 = 32;

pub const SCANCODE_NUM4: i32 = 33;

/// The keypad key that sits on the physical key `scancode`, if any.
pub open spec fn key_of_scancode(scancode: i32) -> Option<u8> {
    if scancode == SCANCODE_NUM1 {
        Some(0x1u8)
    } else if scancode == SCANCODE_NUM2 {
        Some(0x2u8)
    } else if scancode == SCANCODE_NUM3 {
        Some(0x3u8)
    } else if scancode == SCANCODE_NUM4 {
        Some(0xCu8)
    } else if scancode == SCANCODE_Q {
        Some(0x4u8)
    } else if scancode == SCANCODE_W {
        Some(0x5u8)
    } else if scancode == SCANCODE_E {
        Some(0x6u8)
    } else if scancode == SCANCODE_R {
        Some(0xDu8)
    } else if scancode == SCANCODE_A {
        Some(0x7u8)
    } else if scancode == SCANCODE_S {
        Some(0x8u8)
    } else if scancode == SCANCODE_D {
        Some(0x9u8)
    } else if scancode == SCANCODE_F {
        Some(0xEu8)
    } else if scancode == SCANCODE_Z {
        Some(0xAu8)
    } else if scancode == SCANCODE_X {
        Some(0x0u8)
    } else if scancode == SCANCODE_C {
        Some(0xBu8)
    } else if scancode == SCANCODE_V {
        Some(0xFu8)
    } else {
        None
    }
}

/// The physical key that carries the keypad key `key_val`, if there is
/// such a keypad key.
pub open spec fn scancode_of_key(key_val: u8) -> Option<i32> {
    if key_val == 0x0 {
        Some(SCANCODE_X)
    } else if key_val == 0x1 {
        Some(SCANCODE_NUM1)
    } else if key_val == 0x2 {
        Some(SCANCODE_NUM2)
    } else if key_val == 0x3 {
        Some(SCANCODE_NUM3)
    } else if key_val == 0x4 {
        Some(SCANCODE_Q)
    } else if key_val == 0x5 {
        Some(SCANCODE_W)
    } else if key_val == 0x6 {
        Some(SCANCODE_E)
    } else if key_val == 0x7 {
        Some(SCANCODE_A)
    } else if key_val == 0x8 {
        Some(SCANCODE_S)
    } else if key_val == 0x9 {
        Some(SCANCODE_D)
    } else if key_val == 0xA {
        Some(SCANCODE_Z)
    } else if key_val == 0xB {
        Some(SCANCODE_C)
    } else if key_val == 0xC {
        Some(SCANCODE_NUM4)
    } else if key_val == 0xD {
        Some(SCANCODE_R)
    } else if key_val == 0xE {
        Some(SCANCODE_F)
    } else if key_val == 0xF {
        Some(SCANCODE_V)
    } else {
        None
    }
}

/// The keypad key that is down when the physical key `current` is, if any.
pub open spec fn pressed_key(current: Option<i32>) -> Option<u8> {
    match current {
        Some(scancode) => key_of_scancode(scancode),
        None => None,
    }
}

/// The two mappings are inverse to each other: the sixteen keypad keys and
/// the sixteen mapped physical keys correspond one to one.
pub proof fn lemma_keys_correspond(key_val: u8, scancode: i32)
    ensures
        scancode_of_key(key_val) is Some <==> key_val <= 0xF,
        key_of_scancode(scancode) == Some(key_val) <==> scancode_of_key(key_val) == Some(scancode),
{
}

/// The keypad remembers the physical key that went down last and has not
/// come up since.
#[derive(Debug)]
pub struct Keypad {
    current_key: Option<i32>,
}

impl View for Keypad {
    type V = Option<i32>;

    closed spec fn view(&self) -> Option<i32> {
        self.current_key
    }
}

impl Keypad {
    /// A keypad with no key down.
    pub fn new() -> (keypad: Keypad)
        ensures
            keypad@ is None,
    {
        Keypad { current_key: None }
    }

    /// The keypad key that sits on the physical key `scancode`, if any.
    pub fn scancode_to_byte(&self, scancode: i32) -> (key_val: Option<u8>)
        ensures
            key_val == key_of_scancode(scancode),
    {
        match scancode {
            SCANCODE_NUM1 => Some(0x1),
            SCANCODE_NUM2 => Some(0x2),
            SCANCODE_NUM3 => Some(0x3),
            SCANCODE_NUM4 => Some(0xC),
            SCANCODE_Q => Some(0x4),
            SCANCODE_W => Some(0x5),
            SCANCODE_E => Some(0x6),
            SCANCODE_R => Some(0xD),
            SCANCODE_A => Some(0x7),
            SCANCODE_S => Some(0x8),
            SCANCODE_D => Some(0x9),
            SCANCODE_F => Some(0xE),
            SCANCODE_Z => Some(0xA),
            SCANCODE_X => Some(0x0),
            SCANCODE_C => Some(0xB),
            SCANCODE_V => Some(0xF),
            _ => None,
        }
    }

    /// The physical key that carries the keypad key `key_val`, if there
    /// is such a keypad key.
    pub fn byte_to_scancode(&self, key_val: u8) -> (scancode: Option<i32>)
        ensures
            scancode == scancode_of_key(key_val),
    {
        match key_val {
            0x0 => Some(SCANCODE_X),
            0x1 => Some(SCANCODE_NUM1),
            0x2 => Some(SCANCODE_NUM2),
            0x3 => Some(SCANCODE_NUM3),
            0x4 => Some(SCANCODE_Q),
            0x5 => Some(SCANCODE_W),
            0x6 => Some(SCANCODE_E),
            0x7 => Some(SCANCODE_A),
            0x8 => Some(SCANCODE_S),
            0x9 => Some(SCANCODE_D),
            0xA => Some(SCANCODE_Z),
            0xB => Some(SCANCODE_C),
            0xC => Some(SCANCODE_NUM4),
            0xD => Some(SCANCODE_R),
            0xE => Some(SCANCODE_F),
            0xF => Some(SCANCODE_V),
            _ => None,
        }
    }

    /// Records that the physical key `scancode` went down.  A key without
    /// a scancode leaves no key down.
    pub fn set_current_key(&mut self, scancode: Option<i32>)
        ensures
            final(self)@ == scancode,
    {
        self.current_key = scancode
    }

    /// Records that the physical key `scancode` came up: if it is the key
    /// that is down, no key is down any more.
    pub fn set_released_key(&mut self, scancode: Option<i32>)
        ensures
            final(self)@ == if scancode is Some && old(self)@ == scancode {
                None
            } else {
                old(self)@
            },
    {
        match (self.current_key, scancode) {
            (Some(current), Some(released)) => {
                if current == released {
                    self.current_key = None;
                }
            },
            _ => {},
        }
    }

    /// Whether the keypad key `key_val` is down.
    pub fn same_current_key_val(&self, key_val: u8) -> (same: bool)
        ensures
            same == (pressed_key(self@) == Some(key_val)),
    {
        match self.current_key {
            Some(scancode) => {
                let current_val: Option<u8> = self.scancode_to_byte(scancode);
                match current_val {
                    Some(value) => value == key_val,
                    None => false,
                }
            },
            None => false,
        }
    }

    /// The keypad key that is down, if any.
    pub fn current_key_val(&self) -> (key_val: Option<u8>)
        ensures
            key_val == pressed_key(self@),
    {
        match self.current_key {
            Some(scancode) => self.scancode_to_byte(scancode),
            None => None,
        }
    }

    /// The physical key that is down, if any.
    pub fn current_key(&self) -> (scancode: Option<i32>)
        ensures
            scancode == self@,
    {
        self.current_key
    }
}

} // verus!
