//! The display surface and the state of the sixteen logical keys.
//!
//! The surface is a 64 by 32 monochrome framebuffer. Pixels change only by
//! XOR composition, one at a time, and by clearing. The host presents the
//! framebuffer and reports the keys; this module holds what it reported.

use vstd::prelude::*;
use crate::keyboard::KEY_COUNT;

verus! {

/// The display and the keys as a mathematical value.
pub struct InterfaceState {
    /// One entry per pixel, row by row; `true` is on.
    pub pixels: Seq<bool>,
    /// One entry per logical key; `true` is held down.
    pub keys: Seq<bool>,
}

impl InterfaceState {
    /// One pixel state for each place of the surface, one key state for each
    /// logical key.
    pub open spec fn wf(self) -> bool {
        &&& self.pixels.len() == Interface::WIDTH * Interface::HEIGHT
        &&& self.keys.len() == KEY_COUNT
    }

    /// Place of the pixel in column `x` of row `y`.
    pub open spec fn index(x: int, y: int) -> int {
        x + y * Interface::WIDTH
    }

    /// Whether the pixel in column `x` of row `y` is on.
    pub open spec fn pixel(self, x: int, y: int) -> bool {
        self.pixels[Self::index(x, y)]
    }

    /// Every pixel off.
    pub open spec fn cleared(self) -> InterfaceState {
        InterfaceState { pixels: Seq::new(self.pixels.len(), |k: int| false), ..self }
    }

    /// The pixel at (`x`, `y`) XOR-ed with `state`.
    pub open spec fn composed(self, state: bool, x: int, y: int) -> InterfaceState {
        InterfaceState {
            pixels: self.pixels.update(Self::index(x, y), self.pixel(x, y) != state),
            ..self
        }
    }

    /// The logical key `key_code` held down, or not, as `pressed` says.
    pub open spec fn with_key(self, key_code: int, pressed: bool) -> InterfaceState {
        InterfaceState { keys: self.keys.update(key_code, pressed), ..self }
    }

    /// Whether `key_code` names a logical key and that key is held down.
    pub open spec fn key_down(self, key_code: int) -> bool {
        0 <= key_code < self.keys.len() && self.keys[key_code]
    }

    /// Whether `key_code` is the lowest logical key held down.
    pub open spec fn is_first_key_down(self, key_code: int) -> bool {
        &&& self.key_down(key_code)
        &&& forall|lower: int| 0 <= lower < key_code ==> !self.keys[lower]
    }

    /// Whether no logical key is held down.
    pub open spec fn no_key_down(self) -> bool {
        forall|key_code: int| 0 <= key_code < self.keys.len() ==> !self.keys[key_code]
    }

    /// The lowest logical key held down, where one is.
    pub open spec fn first_key_down(self) -> int {
        choose|key_code: int| self.is_first_key_down(key_code)
    }

    /// Whether the sprite's bit (`row`, `column`) meets a pixel of the surface
    /// in the same state, the sprite's origin being (`x`, `y`).
    pub open spec fn collides_at(self, x: int, y: int, sprite: Seq<u8>, row: int, column: int) -> bool {
        &&& 0 <= row < sprite.len()
        &&& 0 <= column < SPRITE_WIDTH
        &&& x + column < Interface::WIDTH
        &&& y + row < Interface::HEIGHT
        &&& self.pixel(x + column, y + row) == sprite_bit(sprite[row], column)
    }

    /// Whether any bit of the sprite that lands on the surface collides.
    pub open spec fn collides(self, x: int, y: int, sprite: Seq<u8>) -> bool {
        exists|row: int, column: int| self.collides_at(x, y, sprite, row, column)
    }

    /// The sprite XOR-ed onto the surface with its origin at (`x`, `y`). Each
    /// byte of the sprite is one row of eight pixels. What would fall beyond
    /// the right or the lower edge is left out.
    pub open spec fn blitted(self, x: int, y: int, sprite: Seq<u8>) -> InterfaceState {
        InterfaceState {
            pixels: Seq::new(
                self.pixels.len(),
                |k: int|
                    {
                        let column = k % (Interface::WIDTH as int) - x;
                        let row = k / (Interface::WIDTH as int) - y;
                        if 0 <= row < sprite.len() && 0 <= column < SPRITE_WIDTH {
                            self.pixels[k] != sprite_bit(sprite[row], column)
                        } else {
                            self.pixels[k]
                        }
                    },
            ),
            ..self
        }
    }
}

/// Number of pixels in one row of a sprite.
pub const SPRITE_WIDTH: usize = 8;

/// Bit `column` of a sprite row; column 0 is the most significant bit.
pub open spec fn sprite_bit(row: u8, column: int) -> bool {
    (row >> ((SPRITE_WIDTH - 1 - column) as u8)) & 1 == 1
}

/// The framebuffer, one colour per pixel and row by row, and the logical keys
/// that the host last saw held down.
pub struct Interface {
    buffer: [u32; 2048],
    pressed: [bool; 16],
}

impl View for Interface {
    type V = InterfaceState;

    closed spec fn view(&self) -> InterfaceState {
        InterfaceState {
            pixels: Seq::new(self.buffer@.len(), |k: int| self.buffer@[k] == Self::WHITE),
            keys: self.pressed@,
        }
    }
}

impl Interface {
    /// Title of the host window.
    pub const TITLE: &'static str = "Chip-8";

    /// Number of pixels in a row of the display.
    pub const WIDTH: usize = 64;

    /// Number of rows of the display.
    pub const HEIGHT: usize = 32;

    /// Colour of a pixel that is off.
    pub const BLACK: u32 = 0;

    /// Colour of a pixel that is on.
    pub const WHITE: u32 = 16777215;

    /// The framebuffer has one colour per pixel, and only the two colours.
    #[verifier::type_invariant]
    spec fn well_formed(&self) -> bool {
        &&& self.buffer@.len() == Self::WIDTH * Self::HEIGHT
        &&& forall|k: int|
            0 <= k < self.buffer@.len() ==> self.buffer@[k] == Self::BLACK || self.buffer@[k]
                == Self::WHITE
    }

    /// Every interface has one pixel state for each place of the surface and
    /// one key state for each logical key.
    pub proof fn lemma_wf(&self)
        ensures
            self@.wf(),
    {
    }

    /// A dark display with no key held down.
    pub fn initialize() -> (interface: Self)
        ensures
            interface@.pixels == Seq::new((Self::WIDTH * Self::HEIGHT) as nat, |k: int| false),
            interface@.keys == Seq::new(KEY_COUNT as nat, |k: int| false),
    {
        let interface = Interface {
            buffer: [Self::BLACK;2048],
            pressed: [false;16],
        };
        interface
    }

    /// The colours to present, row by row: `WHITE` where a pixel is on and
    /// `BLACK` where it is off.
    pub fn get_buffer(&self) -> (buffer: &[u32; 2048])
        ensures
            buffer@.len() == self@.pixels.len(),
            forall|k: int|
                0 <= k < buffer@.len() ==> buffer@[k] == if self@.pixels[k] {
                    Self::WHITE
                } else {
                    Self::BLACK
                },
    {
        proof {
            use_type_invariant(self);
        }
        &self.buffer
    }

    /// Turns every pixel off.
    pub fn clear(&mut self)
        ensures
            final(self)@ == old(self)@.cleared(),
    {
        proof {
            use_type_invariant(&*self);
        }
        self.buffer = [Self::BLACK;2048];
        assert(self@.pixels =~= old(self)@.cleared().pixels);
    }

    /// XORs `state` onto the pixel at (`x`, `y`) and reports a collision:
    /// that the pixel's state before equalled `state`.
    pub fn draw_pixel(&mut self, state: bool, x: usize, y: usize) -> (collided: bool)
        requires
            x < Self::WIDTH,
            y < Self::HEIGHT,
        ensures
            final(self)@ == old(self)@.composed(state, x as int, y as int),
            collided == (old(self)@.pixel(x as int, y as int) == state),
    {
        proof {
            use_type_invariant(&*self);
        }
        let index: usize = x + (y * Self::WIDTH);
        let old_state: bool = self.buffer[index] == Self::WHITE;
        let color: u32 = if old_state != state {
            Self::WHITE
        } else {
            Self::BLACK
        };
        self.buffer[index] = color;
        assert(self@.pixels =~= old(self)@.composed(state, x as int, y as int).pixels);
        old_state == state
    }

    /// Records that the host saw the logical key `key_code` held down, or not.
    pub fn set_key(&mut self, key_code: usize, pressed: bool)
        requires
            key_code < KEY_COUNT,
        ensures
            final(self)@ == old(self)@.with_key(key_code as int, pressed),
    {
        proof {
            use_type_invariant(&*self);
        }
        self.pressed[key_code] = pressed;
    }

    pub fn is_pressed(&self, key_code: usize) -> (pressed: bool)
        requires
            key_code < KEY_COUNT,
        ensures
            pressed == self@.key_down(key_code as int),
    {
        self.pressed[key_code]
    }

    pub fn is_not_pressed(&self, key_code: usize) -> (released: bool)
        requires
            key_code < KEY_COUNT,
        ensures
            released == !self@.key_down(key_code as int),
    {
        self.is_pressed(key_code) == false
    }

    /// The lowest logical key held down, if any is.
    pub fn get_pressed_key(&self) -> (key: Option<usize>)
        ensures
            match key {
                Some(key_code) => self@.is_first_key_down(key_code as int),
                None => self@.no_key_down(),
            },
    {
        let mut index: usize = 0;
        while index < KEY_COUNT
            invariant
                index <= KEY_COUNT,
                forall|lower: int| 0 <= lower < index ==> !self@.keys[lower],
            decreases KEY_COUNT - index,
        {
            if self.is_pressed(index) {
                return Some(index);
            }
            index += 1;
        }
        None
    }
}

} // verus!
