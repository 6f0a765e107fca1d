//! The fly camera: rules that turn the input of a frame into camera effects.
//!
//! A camera carries an ordered table of bindings. Each binding joins a set of
//! conditions to an action. Once per frame every binding is evaluated against
//! the sampled input: it is either skipped, or it resolves to the factors of
//! a product and to a timing mode, and its action is then planned as an
//! effect. The host carries the effects out, in order, on the camera's
//! transform and speed; the arithmetic is the host's, the decisions are made
//! here.

use crate::input::{FrameInput, KeyCode, MouseButton};
use crate::scalar::{Scalar, Vec3};
use vstd::prelude::*;

verus! {

/// One condition of a binding.
#[derive(Clone, Copy, Debug, PartialEq, Eq, Structural)]
pub enum FlyCameraInput {
    /// A key. With `first_frame` the condition is edge-triggered: it holds
    /// only in the frame in which the key went down. Without, it is
    /// level-triggered: it holds in every frame in which the key is held.
    KeyCode { keycode: KeyCode, first_frame: bool },
    /// A pointer button, edge- or level-triggered as a key is.
    MouseButton { mouse_button: MouseButton, first_frame: bool },
    /// The horizontal pointer movement of the frame.
    MouseMoveX,
    /// The vertical pointer movement of the frame.
    MouseMoveY,
    /// The horizontal wheel movement of the frame.
    ScrollX,
    /// The vertical wheel movement of the frame.
    ScrollY,
}

/// What a binding does to the camera once its conditions have resolved.
///
/// Below, `g` is the product of the planned effect's gain factors.
#[derive(Clone, Copy, Debug, PartialEq, Eq, Structural)]
pub enum FlyCameraAction {
    /// Move by the vector times `g`, along the camera's own rotated axes.
    MoveLocal(Vec3),
    /// Move by the vector times `g`, along the world's axes.
    MoveGlobal(Vec3),
    /// Add the vector times `g` to the camera's three Euler angles.
    RotateEuler(Vec3),
    /// Multiply the speed by the exponential of the scalar times `g`.
    ChangeSpeed(Scalar),
    /// Set the speed to the scalar times `g`.
    SetSpeed(Scalar),
}

/// The bindings of a camera: condition sets with their actions, in the order
/// in which they are evaluated.
#[derive(Clone, Debug)]
pub struct FlyCameraInputs(pub Vec<(Vec<FlyCameraInput>, FlyCameraAction)>);

/// A controllable camera: its current speed and its bindings.
#[derive(Clone, Debug)]
pub struct FlyCameraController {
    /// The scale of every movement. Only effects change it.
    pub speed: Scalar,
    pub inputs: FlyCameraInputs,
}

/// A binding as the contracts see it.
pub ghost struct Binding {
    pub conditions: Seq<FlyCameraInput>,
    pub action: FlyCameraAction,
}

/// What a condition set resolved to: the factors whose product, taken from
/// left to right and starting from one, is the resolved value, and the timing
/// mode.
#[derive(Clone, Debug)]
pub struct Resolved {
    /// One factor per condition, in the order of the conditions.
    pub factors: Vec<Scalar>,
    /// Whether the frame time is left out of the scaling.
    pub instantaneous: bool,
}

/// A resolution as the contracts see it.
pub ghost struct ResolvedView {
    pub factors: Seq<Scalar>,
    pub instantaneous: bool,
}

/// One factor of an effect's gain.
#[derive(Clone, Copy, Debug, PartialEq, Eq, Structural)]
pub enum Factor {
    /// A fixed number.
    Value(Scalar),
    /// The camera's speed at the moment the effect is carried out.
    Speed,
}

/// An action to carry out, with the factors of its gain. The gain is their
/// product, taken from left to right and starting from one.
#[derive(Clone, Debug)]
pub struct CameraEffect {
    pub action: FlyCameraAction,
    pub gain: Vec<Factor>,
}

/// An effect as the contracts see it.
pub ghost struct CameraEffectView {
    pub action: FlyCameraAction,
    pub gain: Seq<Factor>,
}

impl View for FlyCameraInputs {
    type V = Seq<Binding>;

    open spec fn view(&self) -> Seq<Binding> {
        Seq::new(
            self.0@.len(),
            |i: int| Binding { conditions: self.0@[i].0@, action: self.0@[i].1 },
        )
    }
}

impl View for Resolved {
    type V = ResolvedView;

    open spec fn view(&self) -> ResolvedView {
        ResolvedView { factors: self.factors@, instantaneous: self.instantaneous }
    }
}

impl View for CameraEffect {
    type V = CameraEffectView;

    open spec fn view(&self) -> CameraEffectView {
        CameraEffectView { action: self.action, gain: self.gain@ }
    }
}

impl FlyCameraInput {
    /// Whether the condition holds only in the frame of the press.
    pub open spec fn is_edge_triggered(self) -> bool {
        match self {
            FlyCameraInput::KeyCode { first_frame, .. } => first_frame,
            FlyCameraInput::MouseButton { first_frame, .. } => first_frame,
            _ => false,
        }
    }

    /// Whether the condition holds for as long as its key or button is held.
    pub open spec fn is_level_triggered(self) -> bool {
        match self {
            FlyCameraInput::KeyCode { first_frame, .. } => !first_frame,
            FlyCameraInput::MouseButton { first_frame, .. } => !first_frame,
            _ => false,
        }
    }

    /// Whether the condition reads a continuous axis.
    pub open spec fn is_axis(self) -> bool {
        !self.is_edge_triggered() && !self.is_level_triggered()
    }

    /// Whether the key or button of the condition is in the state that the
    /// condition asks for. An axis is always there.
    pub open spec fn is_present(self, frame: &FrameInput) -> bool {
        match self {
            FlyCameraInput::KeyCode { keycode, first_frame } => if first_frame {
                frame.key_just_pressed(keycode)
            } else {
                frame.key_pressed(keycode)
            },
            FlyCameraInput::MouseButton { mouse_button, first_frame } => if first_frame {
                frame.button_just_pressed(mouse_button)
            } else {
                frame.button_pressed(mouse_button)
            },
            _ => true,
        }
    }

    /// The factor that the condition contributes when it is present: one for
    /// a key or a button, the frame's movement for an axis.
    pub open spec fn factor(self, frame: &FrameInput) -> Scalar {
        match self {
            FlyCameraInput::MouseMoveX => frame.mouse_delta.x,
            FlyCameraInput::MouseMoveY => frame.mouse_delta.y,
            FlyCameraInput::ScrollX => frame.wheel_delta.x,
            FlyCameraInput::ScrollY => frame.wheel_delta.y,
            _ => Scalar::one(),
        }
    }

    /// What the condition contributes in this frame: its factor, or nothing
    /// when it is absent.
    pub open spec fn spec_contribution(&self, frame: &FrameInput) -> Option<Scalar> {
        if self.is_present(frame) {
            Some(self.factor(frame))
        } else {
            None
        }
    }

    /// What the condition contributes in this frame: its factor, or nothing
    /// when it is absent.
    #[verifier::when_used_as_spec(spec_contribution)]
    pub fn contribution(&self, frame: &FrameInput) -> (r: Option<Scalar>)
        ensures
            r == self.spec_contribution(frame),
    {
        match *self {
            FlyCameraInput::KeyCode { keycode, first_frame } => {
                let present = if first_frame {
                    frame.key_just_pressed(keycode)
                } else {
                    frame.key_pressed(keycode)
                };
                if present {
                    Some(Scalar::one())
                } else {
                    None
                }
            },
            FlyCameraInput::MouseButton { mouse_button, first_frame } => {
                let present = if first_frame {
                    frame.button_just_pressed(mouse_button)
                } else {
                    frame.button_pressed(mouse_button)
                };
                if present {
                    Some(Scalar::one())
                } else {
                    None
                }
            },
            FlyCameraInput::MouseMoveX => Some(frame.mouse_delta.x),
            FlyCameraInput::MouseMoveY => Some(frame.mouse_delta.y),
            FlyCameraInput::ScrollX => Some(frame.wheel_delta.x),
            FlyCameraInput::ScrollY => Some(frame.wheel_delta.y),
        }
    }
}

/// Whether every condition of the set is present in the frame.
pub open spec fn all_present(conditions: Seq<FlyCameraInput>, frame: &FrameInput) -> bool {
    forall|i: int| 0 <= i < conditions.len() ==> (#[trigger] conditions[i]).is_present(frame)
}

/// Whether the set holds an edge-triggered condition.
pub open spec fn any_edge_triggered(conditions: Seq<FlyCameraInput>) -> bool {
    exists|i: int| 0 <= i < conditions.len() && (#[trigger] conditions[i]).is_edge_triggered()
}

/// The factors of the conditions, one each, in their order.
pub open spec fn factors_of(conditions: Seq<FlyCameraInput>, frame: &FrameInput) -> Seq<Scalar> {
    Seq::new(conditions.len(), |i: int| conditions[i].factor(frame))
}

/// What a condition set resolves to in a frame. With one condition absent
/// the set is absent. Otherwise every condition contributes its factor, and
/// the timing is instantaneous if and only if one of them is edge-triggered.
pub open spec fn resolution(conditions: Seq<FlyCameraInput>, frame: &FrameInput) -> Option<
    ResolvedView,
> {
    if all_present(conditions, frame) {
        Some(
            ResolvedView {
                factors: factors_of(conditions, frame),
                instantaneous: any_edge_triggered(conditions),
            },
        )
    } else {
        None
    }
}

/// Evaluates a condition set against the input of a frame.
pub fn evaluate(conditions: &Vec<FlyCameraInput>, frame: &FrameInput) -> (r: Option<Resolved>)
    ensures
        r is Some <==> all_present(conditions@, frame),
        match r {
            Some(resolved) => Some(resolved@) == resolution(conditions@, frame),
            None => resolution(conditions@, frame) is None,
        },
{
    let mut factors: Vec<Scalar> = Vec::new();
    let mut instantaneous = false;
    let mut i: usize = 0;
    while i < conditions.len()
        invariant
            i <= conditions.len(),
            all_present(conditions@.take(i as int), frame),
            factors@ == factors_of(conditions@.take(i as int), frame),
            instantaneous == any_edge_triggered(conditions@.take(i as int)),
        decreases conditions.len() - i,
    {
        let condition = conditions[i];
        let ghost before = conditions@.take(i as int);
        let ghost after = conditions@.take(i as int + 1);
        assert(before == after.take(i as int));
        assert(after[i as int] == condition);
        match condition.contribution(frame) {
            None => {
                assert(!conditions@[i as int].is_present(frame));
                return None;
            },
            Some(factor) => {
                factors.push(factor);
                match condition {
                    FlyCameraInput::KeyCode { first_frame, .. } => {
                        if first_frame {
                            instantaneous = true;
                        }
                    },
                    FlyCameraInput::MouseButton { first_frame, .. } => {
                        if first_frame {
                            instantaneous = true;
                        }
                    },
                    _ => {},
                }
            },
        }
        proof {
            assert forall|j: int| 0 <= j < after.len() implies (#[trigger] after[j]).is_present(
                frame,
            ) by {
                if j < i {
                    assert(before[j] == after[j]);
                }
            }
            assert(factors@ =~= factors_of(after, frame)) by {
                assert forall|j: int| 0 <= j < i implies factors@[j] == after[j].factor(frame) by {
                    assert(before[j] == after[j]);
                }
            }
            if any_edge_triggered(before) {
                let j = choose|j: int|
                    0 <= j < before.len() && (#[trigger] before[j]).is_edge_triggered();
                assert(after[j] == before[j]);
            }
            if any_edge_triggered(after) && !condition.is_edge_triggered() {
                let j = choose|j: int|
                    0 <= j < after.len() && (#[trigger] after[j]).is_edge_triggered();
                assert(before[j] == after[j]);
            }
        }
        i += 1;
    }
    assert(conditions@.take(i as int) == conditions@);
    Some(Resolved { factors, instantaneous })
}

/// The last factor of a movement's gain: the frame time, or one where the
/// timing is instantaneous.
pub open spec fn time_factor(instantaneous: bool, delta_seconds: Scalar) -> Scalar {
    if instantaneous {
        Scalar::one()
    } else {
        delta_seconds
    }
}

/// The resolved factors as factors of a gain.
pub open spec fn values_of(factors: Seq<Scalar>) -> Seq<Factor> {
    Seq::new(factors.len(), |i: int| Factor::Value(factors[i]))
}

impl FlyCameraAction {
    /// Whether the action moves the camera.
    pub open spec fn is_movement(self) -> bool {
        self is MoveLocal || self is MoveGlobal
    }

    /// The gain of the action for a resolved value. Every action takes the
    /// resolved factors. A movement is scaled further, by the camera's speed
    /// and then by the frame time, unless the timing is instantaneous.
    /// Rotation and the two speed actions are scaled by neither.
    pub open spec fn gain(self, resolved: ResolvedView, delta_seconds: Scalar) -> Seq<Factor> {
        if self.is_movement() {
            values_of(resolved.factors).push(Factor::Speed).push(
                Factor::Value(time_factor(resolved.instantaneous, delta_seconds)),
            )
        } else {
            values_of(resolved.factors)
        }
    }

    /// The effect of the action for a resolved value.
    pub open spec fn spec_effect(
        &self,
        resolved: ResolvedView,
        delta_seconds: Scalar,
    ) -> CameraEffectView {
        CameraEffectView { action: *self, gain: self.gain(resolved, delta_seconds) }
    }

    /// Plans the action for a resolved value and a frame time.
    pub fn effect(&self, resolved: &Resolved, delta_seconds: Scalar) -> (r: CameraEffect)
        ensures
            r@ == self.spec_effect(resolved@, delta_seconds),
    {
        let mut gain: Vec<Factor> = Vec::new();
        let mut i: usize = 0;
        while i < resolved.factors.len()
            invariant
                i <= resolved.factors.len(),
                gain@ == values_of(resolved.factors@.take(i as int)),
            decreases resolved.factors.len() - i,
        {
            gain.push(Factor::Value(resolved.factors[i]));
            assert(gain@ =~= values_of(resolved.factors@.take(i as int + 1)));
            i += 1;
        }
        assert(resolved.factors@.take(i as int) == resolved.factors@);
        match *self {
            FlyCameraAction::MoveLocal(_) | FlyCameraAction::MoveGlobal(_) => {
                gain.push(Factor::Speed);
                if resolved.instantaneous {
                    gain.push(Factor::Value(Scalar::one()));
                } else {
                    gain.push(Factor::Value(delta_seconds));
                }
            },
            _ => {},
        }
        CameraEffect { action: *self, gain }
    }
}

/// The effect of one binding in a frame, or nothing when the binding is
/// skipped.
pub open spec fn binding_effect(binding: Binding, frame: &FrameInput) -> Option<CameraEffectView> {
    match resolution(binding.conditions, frame) {
        Some(resolved) => Some(binding.action.spec_effect(resolved, frame.delta_seconds)),
        None => None,
    }
}

/// The effects of a table of bindings in a frame: those of the bindings that
/// are not skipped, in the order of the table.
pub open spec fn frame_effects(bindings: Seq<Binding>, frame: &FrameInput) -> Seq<CameraEffectView>
    decreases bindings.len(),
{
    if bindings.len() == 0 {
        Seq::empty()
    } else {
        let before = frame_effects(bindings.drop_last(), frame);
        match binding_effect(bindings.last(), frame) {
            Some(effect) => before.push(effect),
            None => before,
        }
    }
}

/// A list of effects as the contracts see it.
pub open spec fn effects_view(effects: Seq<CameraEffect>) -> Seq<CameraEffectView> {
    Seq::new(effects.len(), |i: int| effects[i]@)
}

/// Evaluates one binding and plans its action, if the binding is not skipped.
pub fn plan_binding(
    conditions: &Vec<FlyCameraInput>,
    action: FlyCameraAction,
    frame: &FrameInput,
) -> (r: Option<CameraEffect>)
    ensures
        r is Some <==> all_present(conditions@, frame),
        match r {
            Some(effect) => Some(effect@) == binding_effect(
                Binding { conditions: conditions@, action },
                frame,
            ),
            None => binding_effect(Binding { conditions: conditions@, action }, frame) is None,
        },
{
    match evaluate(conditions, frame) {
        Some(resolved) => Some(action.effect(&resolved, frame.delta_seconds)),
        None => None,
    }
}

/// Plans one frame of a camera: evaluates every binding of the controller
/// against the input, in table order, and returns the effects of those that
/// are not skipped. The controller is left as it is; carrying the effects
/// out, in the order given, is what moves the camera and changes its speed.
pub fn fly_camera_controller(controller: &FlyCameraController, frame: &FrameInput) -> (effects: Vec<
    CameraEffect,
>)
    ensures
        effects_view(effects@) == frame_effects(controller.inputs@, frame),
{
    let mut effects: Vec<CameraEffect> = Vec::new();
    let ghost bindings = controller.inputs@;
    let mut i: usize = 0;
    while i < controller.inputs.0.len()
        invariant
            i <= controller.inputs.0.len(),
            bindings == controller.inputs@,
            effects_view(effects@) == frame_effects(bindings.take(i as int), frame),
        decreases controller.inputs.0.len() - i,
    {
        let ghost before = effects_view(effects@);
        let planned = plan_binding(&controller.inputs.0[i].0, controller.inputs.0[i].1, frame);
        proof {
            let upto = bindings.take(i as int + 1);
            assert(upto.drop_last() == bindings.take(i as int));
            assert(upto.last() == Binding {
                conditions: controller.inputs.0@[i as int].0@,
                action: controller.inputs.0@[i as int].1,
            });
        }
        match planned {
            Some(effect) => {
                effects.push(effect);
                assert(effects_view(effects@) =~= before.push(effect@));
            },
            None => {},
        }
        i += 1;
    }
    assert(bindings.take(i as int) == bindings);
    effects
}

} // verus!
