//! What the host samples once per frame: which keys and pointer buttons are
//! held, which of them went down during the frame, how far the pointer and
//! the wheel moved, and how long the frame took.

use crate::scalar::{Scalar, Vec2};
use vstd::prelude::*;

verus! {

/// The `0` key over the letters.
pub const KEY_0: u32 = 9;

/// The `1` key over the letters.
pub const KEY_1: u32 = 0;

/// The `2` key over the letters.
pub const KEY_2: u32 = 1;

/// The `3` key over the letters.
pub const KEY_3: u32 = 2;

/// The `4` key over the letters.
pub const KEY_4: u32 = 3;

/// The `5` key over the letters.
pub const KEY_5: u32 = 4;

/// The `6` key over the letters.
pub const KEY_6: u32 = 5;

/// The `7` key over the letters.
pub const KEY_7: u32 = 6;

/// The `8` key over the letters.
pub const KEY_8: u32 = 7;

/// The `9` key over the letters.
pub const KEY_9: u32 = 8;

/// The `D` key.
pub const KEY_D: u32 = 13;

/// The `Q` key.
pub const KEY_Q: u32 = 26;

/// The `S` key.
pub const KEY_S: u32 = 28;

/// The `W` key.
pub const KEY_W: u32 = 32;

/// The `Z` key.
pub const KEY_Z: u32 = 35;

/// The space bar.
pub const KEY_SPACE: u32 = 76;

/// The left control key.
pub const KEY_CONTROL_LEFT: u32 = 113;

/// The left shift key.
pub const KEY_SHIFT_LEFT: u32 = 114;

/// A key of the keyboard, by the number the host gives it.
#[derive(Clone, Copy, Debug, PartialEq, Eq, Structural)]
pub struct KeyCode(pub u32);

/// A button of the pointing device.
#[derive(Clone, Copy, Debug, PartialEq, Eq, Structural)]
pub enum MouseButton {
    Left,
    Right,
    Middle,
    /// Any further button, by its number.
    Other(u16),
}

/// The input of one frame.
///
/// The two lists of a device are independent of each other: a key that went
/// down and up again within the frame is in `just_pressed_keys` and not in
/// `pressed_keys`. A list may name a key more than once; only membership
/// counts.
#[derive(Clone, Debug)]
pub struct FrameInput {
    /// The keys that are held.
    pub pressed_keys: Vec<KeyCode>,
    /// The keys that went from released to held during this frame.
    pub just_pressed_keys: Vec<KeyCode>,
    /// The pointer buttons that are held.
    pub pressed_buttons: Vec<MouseButton>,
    /// The pointer buttons that went from released to held during this frame.
    pub just_pressed_buttons: Vec<MouseButton>,
    /// The pointer movement, summed over the frame.
    pub mouse_delta: Vec2,
    /// The wheel movement, summed over the frame.
    pub wheel_delta: Vec2,
    /// The time the frame took, in seconds.
    pub delta_seconds: Scalar,
}

impl FrameInput {
    /// Whether `key` is held.
    pub open spec fn spec_key_pressed(&self, key: KeyCode) -> bool {
        self.pressed_keys@.contains(key)
    }

    /// Whether `key` went down during this frame.
    pub open spec fn spec_key_just_pressed(&self, key: KeyCode) -> bool {
        self.just_pressed_keys@.contains(key)
    }

    /// Whether `button` is held.
    pub open spec fn spec_button_pressed(&self, button: MouseButton) -> bool {
        self.pressed_buttons@.contains(button)
    }

    /// Whether `button` went down during this frame.
    pub open spec fn spec_button_just_pressed(&self, button: MouseButton) -> bool {
        self.just_pressed_buttons@.contains(button)
    }

    /// Whether `key` is held.
    #[verifier::when_used_as_spec(spec_key_pressed)]
    pub fn key_pressed(&self, key: KeyCode) -> (r: bool)
        ensures
            r == self.spec_key_pressed(key),
    {
        holds_key(&self.pressed_keys, key)
    }

    /// Whether `key` went down during this frame.
    #[verifier::when_used_as_spec(spec_key_just_pressed)]
    pub fn key_just_pressed(&self, key: KeyCode) -> (r: bool)
        ensures
            r == self.spec_key_just_pressed(key),
    {
        holds_key(&self.just_pressed_keys, key)
    }

    /// Whether `button` is held.
    #[verifier::when_used_as_spec(spec_button_pressed)]
    pub fn button_pressed(&self, button: MouseButton) -> (r: bool)
        ensures
            r == self.spec_button_pressed(button),
    {
        holds_button(&self.pressed_buttons, button)
    }

    /// Whether `button` went down during this frame.
    #[verifier::when_used_as_spec(spec_button_just_pressed)]
    pub fn button_just_pressed(&self, button: MouseButton) -> (r: bool)
        ensures
            r == self.spec_button_just_pressed(button),
    {
        holds_button(&self.just_pressed_buttons, button)
    }
}

/// Whether `key` occurs in `keys`.
fn holds_key(keys: &Vec<KeyCode>, key: KeyCode) -> (r: bool)
    ensures
        r == keys@.contains(key),
{
    let mut i: usize = 0;
    while i < keys.len()
        invariant
            i <= keys.len(),
            forall|j: int| 0 <= j < i ==> keys@[j] != key,
        decreases keys.len() - i,
    {
        if keys[i] == key {
            return true;
        }
        i += 1;
    }
    false
}

/// Whether `button` occurs in `buttons`.
fn holds_button(buttons: &Vec<MouseButton>, button: MouseButton) -> (r: bool)
    ensures
        r == buttons@.contains(button),
{
    let mut i: usize = 0;
    while i < buttons.len()
        invariant
            i <= buttons.len(),
            forall|j: int| 0 <= j < i ==> buttons@[j] != button,
        decreases buttons.len() - i,
    {
        if buttons[i] == button {
            return true;
        }
        i += 1;
    }
    false
}

} // verus!
