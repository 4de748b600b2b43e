//! Joypad register: two 4-bit nibbles (buttons and directions, 0 = pressed)
//! behind an active-low selection latch, with an interrupt request on each
//! released-to-pressed edge.

use vstd::prelude::*;

verus! {

/// A physical key. Right/Left/Up/Down form the direction nibble,
/// A/B/Select/Start the button nibble.
#[derive(Clone, Copy, PartialEq, Eq, Structural, Debug)]
pub enum Key {
    Right,
    Left,
    Up,
    Down,
    A,
    B,
    Select,
    Start,
}

impl Key {
    /// Whether this key belongs to the button nibble (else: directions).
    pub open spec fn is_button(self) -> bool {
        match self {
            Key::A | Key::B | Key::Select | Key::Start => true,
            _ => false,
        }
    }

    /// The bit of this key within its nibble.
    pub open spec fn spec_bit(self) -> u8 {
        match self {
            Key::Right | Key::A => 0,
            Key::Left | Key::B => 1,
            Key::Up | Key::Select => 2,
            Key::Down | Key::Start => 3,
        }
    }

    fn bit(self) -> (r: u8)
        ensures
            r == self.spec_bit(),
    {
        match self {
            Key::Right | Key::A => 0,
            Key::Left | Key::B => 1,
            Key::Up | Key::Select => 2,
            Key::Down | Key::Start => 3,
        }
    }
}

/// Clearing or setting one of the low four bits keeps the nibble invariant
/// and lands on the expected pressed state.
pub proof fn lemma_nibble_bit(n: u8, b: u8)
    requires
        b <= 3,
    ensures
        (n & !(1u8 << b)) & (1u8 << b) == 0,
        (n | (1u8 << b)) & (1u8 << b) != 0,
        n & 0xF0 == 0 ==> (n & !(1u8 << b)) & 0xF0 == 0,
        n & 0xF0 == 0 ==> (n | (1u8 << b)) & 0xF0 == 0,
        0x0Fu8 & 0xF0 == 0,
{
    assert(b <= 3 ==> ((n & !(1u8 << b)) & (1u8 << b) == 0 && (n | (1u8 << b)) & (1u8 << b) != 0
        && (n & 0xF0 == 0 ==> (n & !(1u8 << b)) & 0xF0 == 0) && (n & 0xF0 == 0 ==> (n | (1u8
        << b)) & 0xF0 == 0) && 0x0Fu8 & 0xF0 == 0)) by (bit_vector);
}

/// Joypad state: the two nibbles (bit clear = pressed) and the two selection
/// latches written through bits 4 and 5 of the register.
pub struct Joypad {
    pub select_buttons: bool,
    pub select_directions: bool,
    pub buttons: u8,
    pub directions: u8,
}

impl Joypad {
    /// Both nibbles use only their low four bits.
    pub open spec fn wf(self) -> bool {
        self.buttons & 0xF0 == 0 && self.directions & 0xF0 == 0
    }

    /// The nibble that holds `key`.
    pub open spec fn nibble_of(self, key: Key) -> u8 {
        if key.is_button() {
            self.buttons
        } else {
            self.directions
        }
    }

    /// Whether `key` is currently held (its bit is 0).
    pub open spec fn is_pressed(self, key: Key) -> bool {
        self.nibble_of(key) & (1u8 << key.spec_bit()) == 0
    }

    /// Whether a press of `key` from this state counts as a
    /// released-to-pressed edge, the one condition under which the joypad
    /// interrupt is requested.
    pub open spec fn press_edge(self, key: Key) -> bool {
        !self.is_pressed(key)
    }

    /// The byte read back from the register: bits 7..6 are 1, bits 5..4 are
    /// the inverted selection latches, bits 3..0 show the selected nibble
    /// (buttons win if both are selected) or 0xF if none is.
    pub open spec fn spec_read(self) -> u8 {
        (0xC0u8 | (if self.select_buttons {
            0u8
        } else {
            0x20u8
        }) | (if self.select_directions {
            0u8
        } else {
            0x10u8
        })) | ((if self.select_buttons {
            self.buttons
        } else if self.select_directions {
            self.directions
        } else {
            0x0Fu8
        }) & 0x0F)
    }

    /// All keys released, nothing selected.
    pub fn new() -> (r: Joypad)
        ensures
            r.wf(),
            !r.select_buttons,
            !r.select_directions,
            r.buttons == 0x0F,
            r.directions == 0x0F,
    {
        proof {
            lemma_nibble_bit(0, 0);
        }
        Joypad { select_buttons: false, select_directions: false, buttons: 0x0F, directions: 0x0F }
    }

    /// A store to the register: only the two active-low selection bits are
    /// taken; the nibbles are unchanged.
    pub fn write(&mut self, value: u8)
        ensures
            final(self).select_buttons == (value & 0x20 == 0),
            final(self).select_directions == (value & 0x10 == 0),
            final(self).buttons == old(self).buttons,
            final(self).directions == old(self).directions,
    {
        self.select_buttons = value & 0x20 == 0;
        self.select_directions = value & 0x10 == 0;
    }

    /// A load from the register.
    pub fn read(&self) -> (r: u8)
        ensures
            r == self.spec_read(),
    {
        let result: u8 = 0xC0u8 | (if self.select_buttons {
            0u8
        } else {
            0x20u8
        }) | (if self.select_directions {
            0u8
        } else {
            0x10u8
        });
        let low: u8 = if self.select_buttons {
            self.buttons
        } else if self.select_directions {
            self.directions
        } else {
            0x0F
        };
        result | (low & 0x0F)
    }

    /// Clears the key's bit. Returns true exactly when the key was released
    /// before the call, so a press of a key already held reports no edge and
    /// the caller raises no second interrupt for it.
    pub fn press(&mut self, key: Key) -> (was_released: bool)
        ensures
            was_released == !old(self).is_pressed(key),
            final(self).nibble_of(key) == old(self).nibble_of(key) & !(1u8 << key.spec_bit()),
            final(self).is_pressed(key),
            key.is_button() ==> final(self).directions == old(self).directions,
            !key.is_button() ==> final(self).buttons == old(self).buttons,
            final(self).select_buttons == old(self).select_buttons,
            final(self).select_directions == old(self).select_directions,
            old(self).wf() ==> final(self).wf(),
    {
        let b = key.bit();
        let mask: u8 = 1u8 << b;
        proof {
            let n = if key.is_button() {
                self.buttons
            } else {
                self.directions
            };
            lemma_nibble_bit(n, b);
        }
        match key {
            Key::A | Key::B | Key::Select | Key::Start => {
                let was_released = (self.buttons & mask) != 0;
                self.buttons = self.buttons & !mask;
                was_released
            },
            _ => {
                let was_released = (self.directions & mask) != 0;
                self.directions = self.directions & !mask;
                was_released
            },
        }
    }

    /// Sets the key's bit, marking it released. No interrupt is ever raised
    /// on release.
    pub fn release(&mut self, key: Key)
        ensures
            final(self).nibble_of(key) == old(self).nibble_of(key) | (1u8 << key.spec_bit()),
            !final(self).is_pressed(key),
            key.is_button() ==> final(self).directions == old(self).directions,
            !key.is_button() ==> final(self).buttons == old(self).buttons,
            final(self).select_buttons == old(self).select_buttons,
            final(self).select_directions == old(self).select_directions,
            old(self).wf() ==> final(self).wf(),
    {
        let b = key.bit();
        let mask: u8 = 1u8 << b;
        proof {
            let n = if key.is_button() {
                self.buttons
            } else {
                self.directions
            };
            lemma_nibble_bit(n, b);
        }
        match key {
            Key::A | Key::B | Key::Select | Key::Start => {
                self.buttons = self.buttons | mask;
            },
            _ => {
                self.directions = self.directions | mask;
            },
        }
    }
}

/// Pressing a key that is already held raises no second interrupt: from any
/// state in which `key` is pressed — in particular right after a press of it —
/// another press of the same key is no released-to-pressed edge.
pub proof fn lemma_press_no_repeat_edge(j: Joypad, key: Key)
    requires
        j.is_pressed(key),
    ensures
        !j.press_edge(key),
{
}

} // verus!
