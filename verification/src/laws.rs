//! What holds of the fly camera's rules for every table and every input.

use crate::flycam::{
    all_present, binding_effect, frame_effects, resolution, values_of, Binding, CameraEffectView,
    Factor, FlyCameraAction, FlyCameraInput,
};
use crate::input::FrameInput;
use crate::scalar::Scalar;
use vstd::prelude::*;

verus! {

/// The effects of two tables laid end to end are the effects of the first
/// followed by those of the second.
pub proof fn lemma_frame_effects_of_joined_tables(
    first: Seq<Binding>,
    second: Seq<Binding>,
    frame: &FrameInput,
)
    ensures
        frame_effects(first + second, frame) == frame_effects(first, frame) + frame_effects(
            second,
            frame,
        ),
    decreases second.len(),
{
    if second.len() == 0 {
        assert(first + second == first);
        assert(frame_effects(first, frame) + Seq::<CameraEffectView>::empty() == frame_effects(
            first,
            frame,
        ));
    } else {
        let joined = first + second;
        assert(joined.drop_last() == first + second.drop_last());
        assert(joined.last() == second.last());
        lemma_frame_effects_of_joined_tables(first, second.drop_last(), frame);
        let head = frame_effects(first, frame);
        let tail = frame_effects(second.drop_last(), frame);
        match binding_effect(second.last(), frame) {
            Some(effect) => {
                assert((head + tail).push(effect) == head + tail.push(effect));
            },
            None => {},
        }
    }
}

/// A binding with an absent condition, of whatever kind, is skipped, and the
/// frame's effects are those of the table without that binding.
pub proof fn lemma_absent_condition_skips_the_binding(
    bindings: Seq<Binding>,
    frame: &FrameInput,
    rule: int,
    condition: int,
)
    requires
        0 <= rule < bindings.len(),
        0 <= condition < bindings[rule].conditions.len(),
        !bindings[rule].conditions[condition].is_present(frame),
    ensures
        resolution(bindings[rule].conditions, frame) is None,
        binding_effect(bindings[rule], frame) is None,
        frame_effects(bindings, frame) == frame_effects(bindings.remove(rule), frame),
{
    let before = bindings.take(rule);
    let this = seq![bindings[rule]];
    let after = bindings.skip(rule + 1);
    assert(bindings == before + this + after);
    assert(bindings.remove(rule) == before + after);
    assert(this.drop_last() == Seq::<Binding>::empty());
    assert(this.last() == bindings[rule]);
    assert(frame_effects(this, frame) == Seq::<CameraEffectView>::empty()) by {
        assert(frame_effects(this.drop_last(), frame) == Seq::<CameraEffectView>::empty());
    }
    lemma_frame_effects_of_joined_tables(before, this, frame);
    lemma_frame_effects_of_joined_tables(before + this, after, frame);
    lemma_frame_effects_of_joined_tables(before, after, frame);
    assert(frame_effects(before, frame) + Seq::<CameraEffectView>::empty() == frame_effects(
        before,
        frame,
    ));
}

/// A binding one of whose conditions is level-triggered, with its key or
/// button not held, does nothing in that frame: it resolves to nothing, no
/// effect is planned for it, and the frame's effects are the same as if the
/// binding were not in the table.
pub proof fn law_absent_level_condition_skips_the_binding(
    bindings: Seq<Binding>,
    frame: &FrameInput,
    rule: int,
    condition: int,
)
    requires
        0 <= rule < bindings.len(),
        0 <= condition < bindings[rule].conditions.len(),
        bindings[rule].conditions[condition].is_level_triggered(),
        !bindings[rule].conditions[condition].is_present(frame),
    ensures
        resolution(bindings[rule].conditions, frame) is None,
        binding_effect(bindings[rule], frame) is None,
        frame_effects(bindings, frame) == frame_effects(bindings.remove(rule), frame),
{
    lemma_absent_condition_skips_the_binding(bindings, frame, rule, condition);
}

/// Whether both axes of the pointer and of the wheel stood still in the
/// frame.
pub open spec fn nothing_moved(frame: &FrameInput) -> bool {
    &&& frame.mouse_delta.x.is_zero()
    &&& frame.mouse_delta.y.is_zero()
    &&& frame.wheel_delta.x.is_zero()
    &&& frame.wheel_delta.y.is_zero()
}

/// A binding whose conditions are all continuous axes is never skipped. In a
/// frame in which nothing moved every factor it resolves to is zero, so that
/// its resolved value is zero and not absent; its timing is not
/// instantaneous, and an effect is planned for it whose gain begins with
/// those zeros.
pub proof fn law_still_axes_resolve_to_zero(
    conditions: Seq<FlyCameraInput>,
    action: FlyCameraAction,
    frame: &FrameInput,
)
    requires
        conditions.len() >= 1,
        forall|i: int| 0 <= i < conditions.len() ==> (#[trigger] conditions[i]).is_axis(),
        nothing_moved(frame),
    ensures
        resolution(conditions, frame) is Some,
        resolution(conditions, frame)->0.factors.len() == conditions.len(),
        forall|i: int|
            0 <= i < conditions.len() ==> (#[trigger] resolution(
                conditions,
                frame,
            )->0.factors[i]).is_zero(),
        !resolution(conditions, frame)->0.instantaneous,
        binding_effect(Binding { conditions, action }, frame) is Some,
        binding_effect(Binding { conditions, action }, frame)->0.action == action,
        forall|i: int|
            0 <= i < conditions.len() ==> (#[trigger] binding_effect(
                Binding { conditions, action },
                frame,
            )->0.gain[i]) == Factor::Value(conditions[i].factor(frame)),
{
    assert forall|i: int| 0 <= i < conditions.len() implies (#[trigger] conditions[i]).is_present(
        frame,
    ) by {
        assert(conditions[i].is_axis());
    }
    assert forall|i: int| 0 <= i < conditions.len() implies (#[trigger] conditions[i].factor(
        frame,
    )).is_zero() by {
        assert(conditions[i].is_axis());
    }
    assert forall|i: int| 0 <= i < conditions.len() implies !(
    #[trigger] conditions[i]).is_edge_triggered() by {
        assert(conditions[i].is_axis());
    }
}

/// Whether `frames` are the frames of one press of a condition's key or
/// button: the condition's key went down in the first frame and in no later
/// one, however long it is held.
pub open spec fn is_one_press(condition: FlyCameraInput, frames: Seq<FrameInput>) -> bool {
    &&& condition.is_edge_triggered()
    &&& frames.len() >= 1
    &&& condition.is_present(&frames[0])
    &&& forall|t: int| 1 <= t < frames.len() ==> !condition.is_present(&#[trigger] frames[t])
}

/// In how many of the frames the condition set resolves.
pub open spec fn times_resolved(conditions: Seq<FlyCameraInput>, frames: Seq<FrameInput>) -> nat
    decreases frames.len(),
{
    if frames.len() == 0 {
        0
    } else {
        let earlier = times_resolved(conditions, frames.drop_last());
        if resolution(conditions, &frames.last()) is Some {
            earlier + 1
        } else {
            earlier
        }
    }
}

/// A condition set that does not resolve in any frame but perhaps the first
/// resolves at most once, and once if it resolves in the first.
proof fn lemma_resolves_in_the_first_frame_only(
    conditions: Seq<FlyCameraInput>,
    frames: Seq<FrameInput>,
)
    requires
        frames.len() >= 1,
        forall|t: int| 1 <= t < frames.len() ==> resolution(conditions, &#[trigger] frames[t]) is None,
    ensures
        times_resolved(conditions, frames) == (if resolution(conditions, &frames[0]) is Some {
            1nat
        } else {
            0nat
        }),
    decreases frames.len(),
{
    if frames.len() == 1 {
        assert(frames.drop_last().len() == 0);
        assert(times_resolved(conditions, frames.drop_last()) == 0);
        assert(frames.last() == frames[0]);
    } else {
        let earlier = frames.drop_last();
        assert forall|t: int| 1 <= t < earlier.len() implies resolution(
            conditions,
            &#[trigger] earlier[t],
        ) is None by {
            assert(earlier[t] == frames[t]);
        }
        assert(earlier[0] == frames[0]);
        lemma_resolves_in_the_first_frame_only(conditions, earlier);
        assert(frames.last() == frames[frames.len() - 1]);
    }
}

/// A binding with an edge-triggered condition fires once per press, however
/// long the key or button is then held: it can resolve in the frame in which
/// the key went down, and it resolves in none of the frames after it. If its
/// other conditions are present in that first frame it resolves exactly once,
/// and instantaneously.
pub proof fn law_edge_triggered_fires_once_per_press(
    conditions: Seq<FlyCameraInput>,
    at: int,
    frames: Seq<FrameInput>,
)
    requires
        0 <= at < conditions.len(),
        is_one_press(conditions[at], frames),
    ensures
        forall|t: int| 1 <= t < frames.len() ==> resolution(conditions, &#[trigger] frames[t]) is None,
        times_resolved(conditions, frames) <= 1,
        all_present(conditions, &frames[0]) ==> times_resolved(conditions, frames) == 1,
        all_present(conditions, &frames[0]) ==> resolution(conditions, &frames[0])->0.instantaneous,
{
    assert forall|t: int| 1 <= t < frames.len() implies resolution(
        conditions,
        &#[trigger] frames[t],
    ) is None by {
        assert(!conditions[at].is_present(&frames[t]));
    }
    lemma_resolves_in_the_first_frame_only(conditions, frames);
    if all_present(conditions, &frames[0]) {
        assert(conditions[at].is_edge_triggered());
    }
}

/// The gain of a product of ones: as many ones as there are conditions.
pub open spec fn unit_gain(count: nat) -> Seq<Factor> {
    Seq::new(count, |i: int| Factor::Value(Scalar::one()))
}

/// A binding whose conditions are keys and buttons only, and whose action is
/// no movement, plans a gain of ones whenever it fires.
proof fn lemma_keys_resolve_to_unit_gain(
    conditions: Seq<FlyCameraInput>,
    action: FlyCameraAction,
    frame: &FrameInput,
)
    requires
        forall|i: int| 0 <= i < conditions.len() ==> !(#[trigger] conditions[i]).is_axis(),
        all_present(conditions, frame),
        !action.is_movement(),
    ensures
        binding_effect(Binding { conditions, action }, frame) == Some(
            CameraEffectView { action, gain: unit_gain(conditions.len()) },
        ),
{
    let resolved = resolution(conditions, frame)->0;
    assert(values_of(resolved.factors) =~= unit_gain(conditions.len())) by {
        assert forall|i: int| 0 <= i < conditions.len() implies resolved.factors[i]
            == Scalar::one() by {
            assert(!conditions[i].is_axis());
        }
    }
}

/// A binding that sets the speed, and whose conditions are keys and buttons
/// only, plans the same effect whenever it fires: the target, with a gain
/// whose factors are all one. Neither the camera's speed nor the frame time
/// nor any movement enters it, so that carrying it out leaves the speed at
/// the target whatever it was before.
pub proof fn law_set_speed_by_keys_sets_the_target(
    conditions: Seq<FlyCameraInput>,
    target: Scalar,
    frame: &FrameInput,
)
    requires
        forall|i: int| 0 <= i < conditions.len() ==> !(#[trigger] conditions[i]).is_axis(),
        all_present(conditions, frame),
    ensures
        binding_effect(Binding { conditions, action: FlyCameraAction::SetSpeed(target) }, frame)
            == Some(
            CameraEffectView {
                action: FlyCameraAction::SetSpeed(target),
                gain: unit_gain(conditions.len()),
            },
        ),
{
    lemma_keys_resolve_to_unit_gain(conditions, FlyCameraAction::SetSpeed(target), frame);
}

/// A binding that changes the speed, and whose conditions are keys and
/// buttons only, plans the same effect in every frame in which it fires: the
/// change, with a gain whose factors are all one. Neither the camera's speed
/// nor the frame time enters it.
pub proof fn law_change_speed_by_keys_is_the_same_every_frame(
    conditions: Seq<FlyCameraInput>,
    log_delta: Scalar,
    frame: &FrameInput,
)
    requires
        forall|i: int| 0 <= i < conditions.len() ==> !(#[trigger] conditions[i]).is_axis(),
        all_present(conditions, frame),
    ensures
        binding_effect(
            Binding { conditions, action: FlyCameraAction::ChangeSpeed(log_delta) },
            frame,
        ) == Some(
            CameraEffectView {
                action: FlyCameraAction::ChangeSpeed(log_delta),
                gain: unit_gain(conditions.len()),
            },
        ),
{
    lemma_keys_resolve_to_unit_gain(conditions, FlyCameraAction::ChangeSpeed(log_delta), frame);
}

/// Only movements are scaled by the camera's speed and by the frame time. A
/// rotation or a speed action takes the resolved factors and nothing else; a
/// movement takes them, then the speed, then the frame time, or one in its
/// place where a condition of the binding is edge-triggered.
pub proof fn law_scaling_by_action(
    conditions: Seq<FlyCameraInput>,
    action: FlyCameraAction,
    frame: &FrameInput,
)
    requires
        all_present(conditions, frame),
    ensures
        binding_effect(Binding { conditions, action }, frame) is Some,
        !action.is_movement() ==> binding_effect(Binding { conditions, action }, frame)->0.gain
            == values_of(resolution(conditions, frame)->0.factors),
        action.is_movement() ==> binding_effect(Binding { conditions, action }, frame)->0.gain
            == values_of(resolution(conditions, frame)->0.factors) + seq![
            Factor::Speed,
            Factor::Value(
                if resolution(conditions, frame)->0.instantaneous {
                    Scalar::one()
                } else {
                    frame.delta_seconds
                },
            ),
        ],
{
    let resolved = resolution(conditions, frame)->0;
    let values = values_of(resolved.factors);
    if action.is_movement() {
        let last = Factor::Value(
            if resolved.instantaneous {
                Scalar::one()
            } else {
                frame.delta_seconds
            },
        );
        assert(values.push(Factor::Speed).push(last) =~= values + seq![Factor::Speed, last]);
    }
}

} // verus!
