//! The default bindings of a fly camera, and what makes a table of bindings
//! well formed.

use crate::flycam::{Binding, FlyCameraAction, FlyCameraInput, FlyCameraInputs};
use crate::input::{
    KeyCode, MouseButton, KEY_0, KEY_1, KEY_2, KEY_3, KEY_4, KEY_5, KEY_6, KEY_7, KEY_8, KEY_9,
    KEY_CONTROL_LEFT, KEY_D, KEY_Q, KEY_S, KEY_SHIFT_LEFT, KEY_SPACE, KEY_W, KEY_Z,
};
use crate::scalar::{Scalar, Vec3, NEG_ONE, NEG_ZERO, ONE, ZERO};
use vstd::prelude::*;

verus! {

/// The pattern of two: the magnitude of a boosted movement.
pub const TWO: u32 = 0x4000_0000;

/// The pattern of minus two.
pub const NEG_TWO: u32 = 0xC000_0000;

/// The pattern of minus five: the forward nudge.
pub const NEG_FIVE: u32 = 0xC0A0_0000;

/// The pattern of -0.002: the angle turned per unit of pointer movement.
pub const TURN: u32 = 0xBB03_126F;

/// The pattern of -0.05: the change of the speed's logarithm per unit of
/// wheel movement.
pub const SCROLL: u32 = 0xBD4C_CCCD;

/// What doubling adds to the pattern of a normal number: one in the
/// exponent field.
pub const DOUBLING: u32 = 0x0080_0000;

/// The pattern of 0.03125: the speed that the `0` key sets, the lowest of the
/// ten. Each further number key sets twice the speed of the key before it.
pub const SPEED_0: u32 = 0x3D00_0000;

/// The pattern of 0.0625.
pub const SPEED_1: u32 = 0x3D80_0000;

/// The pattern of 0.125.
pub const SPEED_2: u32 = 0x3E00_0000;

/// The pattern of 0.25.
pub const SPEED_3: u32 = 0x3E80_0000;

/// The pattern of 0.5.
pub const SPEED_4: u32 = 0x3F00_0000;

/// The pattern of 1.
pub const SPEED_5: u32 = 0x3F80_0000;

/// The pattern of 2.
pub const SPEED_6: u32 = 0x4000_0000;

/// The pattern of 4.
pub const SPEED_7: u32 = 0x4080_0000;

/// The pattern of 8.
pub const SPEED_8: u32 = 0x4100_0000;

/// The pattern of 16.
pub const SPEED_9: u32 = 0x4180_0000;

/// A key condition.
pub open spec fn spec_keycode(key: u32, first_frame: bool) -> FlyCameraInput {
    FlyCameraInput::KeyCode { keycode: KeyCode(key), first_frame }
}

/// A key condition.
#[verifier::when_used_as_spec(spec_keycode)]
pub fn keycode(key: u32, first_frame: bool) -> (r: FlyCameraInput)
    ensures
        r == spec_keycode(key, first_frame),
{
    FlyCameraInput::KeyCode { keycode: KeyCode(key), first_frame }
}

/// A pointer button condition.
pub open spec fn spec_button(mouse_button: MouseButton, first_frame: bool) -> FlyCameraInput {
    FlyCameraInput::MouseButton { mouse_button, first_frame }
}

/// A pointer button condition.
#[verifier::when_used_as_spec(spec_button)]
pub fn button(mouse_button: MouseButton, first_frame: bool) -> (r: FlyCameraInput)
    ensures
        r == spec_button(mouse_button, first_frame),
{
    FlyCameraInput::MouseButton { mouse_button, first_frame }
}

/// The binding that moves the camera along its own axes while `key` is held.
pub open spec fn held_moves(key: u32, x: u32, y: u32, z: u32) -> Binding {
    Binding {
        conditions: seq![keycode(key, false)],
        action: FlyCameraAction::MoveLocal(Vec3::from_bits(x, y, z)),
    }
}

/// The binding that moves the camera along its own axes while `key` and the
/// left shift key are both held.
pub open spec fn boosted_moves(key: u32, x: u32, y: u32, z: u32) -> Binding {
    Binding {
        conditions: seq![keycode(key, false), keycode(KEY_SHIFT_LEFT, false)],
        action: FlyCameraAction::MoveLocal(Vec3::from_bits(x, y, z)),
    }
}

/// The binding that turns the camera by the pointer movement along `axis`
/// while the right button is held.
pub open spec fn dragged_turns(axis: FlyCameraInput, x: u32, y: u32, z: u32) -> Binding {
    Binding {
        conditions: seq![axis, button(MouseButton::Right, false)],
        action: FlyCameraAction::RotateEuler(Vec3::from_bits(x, y, z)),
    }
}

/// The binding that sets the speed when `key` goes down.
pub open spec fn struck_sets_speed(key: u32, speed: u32) -> Binding {
    Binding {
        conditions: seq![keycode(key, true)],
        action: FlyCameraAction::SetSpeed(Scalar { bits: speed }),
    }
}

/// The default table, in its order. Six keys move the camera along its own
/// axes by one per second; the same keys with the left shift key add a
/// movement of two per second; `W` nudges the camera forward by five at once;
/// dragging with the right button turns it; the wheel changes the speed, and
/// the number keys set it.
pub open spec fn default_bindings() -> Seq<Binding> {
    seq![
        held_moves(KEY_Z, ZERO, ZERO, NEG_ONE),
        held_moves(KEY_S, ZERO, ZERO, ONE),
        held_moves(KEY_Q, NEG_ONE, ZERO, ZERO),
        held_moves(KEY_D, ONE, ZERO, ZERO),
        held_moves(KEY_CONTROL_LEFT, ZERO, NEG_ONE, ZERO),
        held_moves(KEY_SPACE, ZERO, ONE, ZERO),
        boosted_moves(KEY_Z, ZERO, ZERO, NEG_TWO),
        boosted_moves(KEY_S, ZERO, ZERO, TWO),
        boosted_moves(KEY_Q, NEG_TWO, ZERO, ZERO),
        boosted_moves(KEY_D, TWO, ZERO, ZERO),
        boosted_moves(KEY_CONTROL_LEFT, ZERO, NEG_TWO, ZERO),
        boosted_moves(KEY_SPACE, ZERO, TWO, ZERO),
        Binding {
            conditions: seq![keycode(KEY_W, true)],
            action: FlyCameraAction::MoveLocal(Vec3::from_bits(ZERO, ZERO, NEG_FIVE)),
        },
        dragged_turns(FlyCameraInput::MouseMoveX, TURN, NEG_ZERO, NEG_ZERO),
        dragged_turns(FlyCameraInput::MouseMoveY, NEG_ZERO, TURN, NEG_ZERO),
        Binding {
            conditions: seq![FlyCameraInput::ScrollY],
            action: FlyCameraAction::ChangeSpeed(Scalar { bits: SCROLL }),
        },
        struck_sets_speed(KEY_0, SPEED_0),
        struck_sets_speed(KEY_1, SPEED_1),
        struck_sets_speed(KEY_2, SPEED_2),
        struck_sets_speed(KEY_3, SPEED_3),
        struck_sets_speed(KEY_4, SPEED_4),
        struck_sets_speed(KEY_5, SPEED_5),
        struck_sets_speed(KEY_6, SPEED_6),
        struck_sets_speed(KEY_7, SPEED_7),
        struck_sets_speed(KEY_8, SPEED_8),
        struck_sets_speed(KEY_9, SPEED_9),
    ]
}

/// The row of the default table that holds the first number key's binding.
pub const FIRST_SPEED_ROW: usize = 16;

/// The key of each number key's binding, by the digit on the key.
pub open spec fn number_key(digit: int) -> u32 {
    if digit == 0 {
        KEY_0
    } else {
        (KEY_1 + digit - 1) as u32
    }
}

/// The speed that the number key with the given digit sets, as a pattern:
/// that of the `0` key, doubled once for each step up.
pub open spec fn preset_speed(digit: int) -> u32 {
    (SPEED_0 + digit * DOUBLING) as u32
}

/// The ten number keys set speeds that grow with the digit on the key, each
/// twice the one before: the binding of digit `n` stands in row 16 + `n` of
/// the default table, fires when that key goes down, and sets the speed whose
/// pattern is that of the `0` key with `n` added to its exponent. All ten are
/// positive normal numbers, so that a greater pattern is a greater number.
pub proof fn law_number_keys_double_the_speed(digit: int)
    requires
        0 <= digit <= 9,
    ensures
        default_bindings()[FIRST_SPEED_ROW + digit] == struck_sets_speed(
            number_key(digit),
            preset_speed(digit),
        ),
        digit < 9 ==> preset_speed(digit + 1) == preset_speed(digit) + DOUBLING,
        digit < 9 ==> preset_speed(digit) < preset_speed(digit + 1),
        0x0080_0000 <= preset_speed(digit) < 0x7F80_0000,
{
}

/// Whether every binding of the table has at least one condition.
pub open spec fn well_formed(bindings: Seq<Binding>) -> bool {
    forall|i: int| 0 <= i < bindings.len() ==> (#[trigger] bindings[i]).conditions.len() >= 1
}

impl FlyCameraInputs {
    /// The table without bindings.
    pub fn new() -> (r: FlyCameraInputs)
        ensures
            r@ == Seq::<Binding>::empty(),
    {
        let r = FlyCameraInputs(Vec::new());
        assert(r@ =~= Seq::<Binding>::empty());
        r
    }

    /// Adds a binding of one condition at the end of the table.
    pub fn bind(&mut self, condition: FlyCameraInput, action: FlyCameraAction)
        ensures
            final(self)@ == old(self)@.push(Binding { conditions: seq![condition], action }),
    {
        let mut conditions: Vec<FlyCameraInput> = Vec::new();
        conditions.push(condition);
        assert(conditions@ =~= seq![condition]);
        self.0.push((conditions, action));
        assert(self@ =~= old(self)@.push(Binding { conditions: seq![condition], action }));
    }

    /// Adds a binding of two conditions at the end of the table.
    pub fn bind_both(
        &mut self,
        first: FlyCameraInput,
        second: FlyCameraInput,
        action: FlyCameraAction,
    )
        ensures
            final(self)@ == old(self)@.push(Binding { conditions: seq![first, second], action }),
    {
        let mut conditions: Vec<FlyCameraInput> = Vec::new();
        conditions.push(first);
        conditions.push(second);
        assert(conditions@ =~= seq![first, second]);
        self.0.push((conditions, action));
        assert(self@ =~= old(self)@.push(Binding { conditions: seq![first, second], action }));
    }

    /// Whether every binding of the table has at least one condition. In a
    /// table that has not, some binding fires in every frame, gated by no
    /// input.
    pub fn is_well_formed(&self) -> (r: bool)
        ensures
            r == well_formed(self@),
    {
        let mut i: usize = 0;
        while i < self.0.len()
            invariant
                i <= self.0.len(),
                forall|j: int| 0 <= j < i ==> (#[trigger] self@[j]).conditions.len() >= 1,
            decreases self.0.len() - i,
        {
            if self.0[i].0.len() == 0 {
                assert(self@[i as int].conditions.len() == 0);
                return false;
            }
            i += 1;
        }
        true
    }
}

impl Default for FlyCameraInputs {
    /// The default table.
    fn default() -> (r: FlyCameraInputs)
        ensures
            r@ == default_bindings(),
            well_formed(r@),
    {
        let mut t = FlyCameraInputs::new();
        t.bind(keycode(KEY_Z, false), FlyCameraAction::MoveLocal(Vec3::from_bits(ZERO, ZERO, NEG_ONE)));
        t.bind(keycode(KEY_S, false), FlyCameraAction::MoveLocal(Vec3::from_bits(ZERO, ZERO, ONE)));
        t.bind(keycode(KEY_Q, false), FlyCameraAction::MoveLocal(Vec3::from_bits(NEG_ONE, ZERO, ZERO)));
        t.bind(keycode(KEY_D, false), FlyCameraAction::MoveLocal(Vec3::from_bits(ONE, ZERO, ZERO)));
        t.bind(
            keycode(KEY_CONTROL_LEFT, false),
            FlyCameraAction::MoveLocal(Vec3::from_bits(ZERO, NEG_ONE, ZERO)),
        );
        t.bind(keycode(KEY_SPACE, false), FlyCameraAction::MoveLocal(Vec3::from_bits(ZERO, ONE, ZERO)));
        let shift = keycode(KEY_SHIFT_LEFT, false);
        t.bind_both(
            keycode(KEY_Z, false),
            shift,
            FlyCameraAction::MoveLocal(Vec3::from_bits(ZERO, ZERO, NEG_TWO)),
        );
        t.bind_both(
            keycode(KEY_S, false),
            shift,
            FlyCameraAction::MoveLocal(Vec3::from_bits(ZERO, ZERO, TWO)),
        );
        t.bind_both(
            keycode(KEY_Q, false),
            shift,
            FlyCameraAction::MoveLocal(Vec3::from_bits(NEG_TWO, ZERO, ZERO)),
        );
        t.bind_both(
            keycode(KEY_D, false),
            shift,
            FlyCameraAction::MoveLocal(Vec3::from_bits(TWO, ZERO, ZERO)),
        );
        t.bind_both(
            keycode(KEY_CONTROL_LEFT, false),
            shift,
            FlyCameraAction::MoveLocal(Vec3::from_bits(ZERO, NEG_TWO, ZERO)),
        );
        t.bind_both(
            keycode(KEY_SPACE, false),
            shift,
            FlyCameraAction::MoveLocal(Vec3::from_bits(ZERO, TWO, ZERO)),
        );
        t.bind(keycode(KEY_W, true), FlyCameraAction::MoveLocal(Vec3::from_bits(ZERO, ZERO, NEG_FIVE)));
        let drag = button(MouseButton::Right, false);
        t.bind_both(
            FlyCameraInput::MouseMoveX,
            drag,
            FlyCameraAction::RotateEuler(Vec3::from_bits(TURN, NEG_ZERO, NEG_ZERO)),
        );
        t.bind_both(
            FlyCameraInput::MouseMoveY,
            drag,
            FlyCameraAction::RotateEuler(Vec3::from_bits(NEG_ZERO, TURN, NEG_ZERO)),
        );
        t.bind(FlyCameraInput::ScrollY, FlyCameraAction::ChangeSpeed(Scalar { bits: SCROLL }));
        t.bind(keycode(KEY_0, true), FlyCameraAction::SetSpeed(Scalar { bits: SPEED_0 }));
        t.bind(keycode(KEY_1, true), FlyCameraAction::SetSpeed(Scalar { bits: SPEED_1 }));
        t.bind(keycode(KEY_2, true), FlyCameraAction::SetSpeed(Scalar { bits: SPEED_2 }));
        t.bind(keycode(KEY_3, true), FlyCameraAction::SetSpeed(Scalar { bits: SPEED_3 }));
        t.bind(keycode(KEY_4, true), FlyCameraAction::SetSpeed(Scalar { bits: SPEED_4 }));
        t.bind(keycode(KEY_5, true), FlyCameraAction::SetSpeed(Scalar { bits: SPEED_5 }));
        t.bind(keycode(KEY_6, true), FlyCameraAction::SetSpeed(Scalar { bits: SPEED_6 }));
        t.bind(keycode(KEY_7, true), FlyCameraAction::SetSpeed(Scalar { bits: SPEED_7 }));
        t.bind(keycode(KEY_8, true), FlyCameraAction::SetSpeed(Scalar { bits: SPEED_8 }));
        t.bind(keycode(KEY_9, true), FlyCameraAction::SetSpeed(Scalar { bits: SPEED_9 }));
        assert(t@ =~= default_bindings());
        t
    }
}

} // verus!
