//! The physical key that stands for each of the sixteen logical keys.

use vstd::prelude::*;

verus! {

/// Number of logical keys: one for each hexadecimal digit.
pub const KEY_COUNT: usize = 16;

/// A physical key of the host keyboard.
#[derive(Clone, Copy, Debug, PartialEq, Eq, Structural)]
pub enum Key {
    Key1,
    Key2,
    Key3,
    Key4,
    Q,
    W,
    E,
    R,
    A,
    S,
    D,
    F,
    Z,
    X,
    C,
    V,
}

/// The physical key of each logical key.
pub struct Keyboard {
    keys: [Key; 16],
}

impl View for Keyboard {
    type V = Seq<Key>;

    closed spec fn view(&self) -> Seq<Key> {
        self.keys@
    }
}

impl Keyboard {
    /// The physical keys in the order of the logical keys 0 to F: the left
    /// four columns of a keyboard, laid out as the console's hexadecimal pad.
    pub open spec fn layout() -> Seq<Key> {
        seq![
            Key::X,
            Key::Key1,
            Key::Key2,
            Key::Key3,
            Key::Q,
            Key::W,
            Key::E,
            Key::A,
            Key::S,
            Key::D,
            Key::Z,
            Key::C,
            Key::Key4,
            Key::R,
            Key::F,
            Key::V,
        ]
    }

    pub fn initialize() -> (keyboard: Self)
        ensures
            keyboard@ == Self::layout(),
    {
        let keyboard = Keyboard {
            keys: [
                Key::X,
                Key::Key1,
                Key::Key2,
                Key::Key3,
                Key::Q,
                Key::W,
                Key::E,
                Key::A,
                Key::S,
                Key::D,
                Key::Z,
                Key::C,
                Key::Key4,
                Key::R,
                Key::F,
                Key::V,
            ],
        };
        keyboard
    }

    /// The physical key that stands for the logical key `index`.
    pub fn get_key(&self, index: usize) -> (key: Key)
        requires
            index < KEY_COUNT,
        ensures
            key == self@[index as int],
    {
        self.keys[index]
    }
}

} // verus!
