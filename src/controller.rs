use vstd::prelude::*;
use crate::input::{intent_for_key, intent_of, Intent, Key};

verus! {

/// One of the three accumulated rotation angles.
#[derive(Clone, Copy, Debug, PartialEq, Eq, Structural)]
pub enum Axis {
    /// Rotation about x.
    Pitch,
    /// Rotation about y.
    Yaw,
    /// Rotation about the forward direction, stored as z.
    Roll,
}

/// One change that a frame applies to the camera pose, by one step size.
#[derive(Clone, Copy, Debug, PartialEq, Eq, Structural)]
pub enum Step {
    /// Move the eye toward the target.
    Advance,
    /// Move the eye away from the target.
    Retreat,
    /// Add (`positive`) or subtract one step on an angle.
    Turn { axis: Axis, positive: bool },
}

/// What holding an intent does in a frame; the debug dump moves nothing.
pub open spec fn step_of(i: Intent) -> Option<Step> {
    match i {
        Intent::Forward => Some(Step::Advance),
        Intent::Backward => Some(Step::Retreat),
        Intent::YawRight => Some(Step::Turn { axis: Axis::Yaw, positive: true }),
        Intent::YawLeft => Some(Step::Turn { axis: Axis::Yaw, positive: false }),
        Intent::PitchDown => Some(Step::Turn { axis: Axis::Pitch, positive: true }),
        Intent::PitchUp => Some(Step::Turn { axis: Axis::Pitch, positive: false }),
        Intent::RollCw => Some(Step::Turn { axis: Axis::Roll, positive: true }),
        Intent::RollCcw => Some(Step::Turn { axis: Axis::Roll, positive: false }),
        Intent::DebugDump => None,
    }
}

/// The order in which a frame applies the held intents.
pub open spec fn update_order() -> Seq<Intent> {
    seq![
        Intent::Forward,
        Intent::Backward,
        Intent::YawRight,
        Intent::YawLeft,
        Intent::PitchDown,
        Intent::PitchUp,
        Intent::RollCw,
        Intent::RollCcw,
    ]
}

fn step_for(i: Intent) -> (r: Option<Step>)
    ensures
        r == step_of(i),
{
    match i {
        Intent::Forward => Some(Step::Advance),
        Intent::Backward => Some(Step::Retreat),
        Intent::YawRight => Some(Step::Turn { axis: Axis::Yaw, positive: true }),
        Intent::YawLeft => Some(Step::Turn { axis: Axis::Yaw, positive: false }),
        Intent::PitchDown => Some(Step::Turn { axis: Axis::Pitch, positive: true }),
        Intent::PitchUp => Some(Step::Turn { axis: Axis::Pitch, positive: false }),
        Intent::RollCw => Some(Step::Turn { axis: Axis::Roll, positive: true }),
        Intent::RollCcw => Some(Step::Turn { axis: Axis::Roll, positive: false }),
        Intent::DebugDump => None,
    }
}

/// The held intents of one camera, with the step size `speed` that the
/// pose arithmetic uses. The step size is carried, never read, here.
pub struct CameraController<S> {
    pub speed: S,
    pub is_forward_pressed: bool,
    pub is_backward_pressed: bool,
    pub is_left_pressed: bool,
    pub is_right_pressed: bool,
    pub is_up_pressed: bool,
    pub is_down_pressed: bool,
    pub is_zcw_pressed: bool,
    pub is_zccw_pressed: bool,
    pub is_debug_pressed: bool,
}

impl<S> CameraController<S> {
    /// Whether intent `i` is held.
    pub open spec fn pressed(self, i: Intent) -> bool {
        match i {
            Intent::Forward => self.is_forward_pressed,
            Intent::Backward => self.is_backward_pressed,
            Intent::YawLeft => self.is_left_pressed,
            Intent::YawRight => self.is_right_pressed,
            Intent::PitchUp => self.is_up_pressed,
            Intent::PitchDown => self.is_down_pressed,
            Intent::RollCw => self.is_zcw_pressed,
            Intent::RollCcw => self.is_zccw_pressed,
            Intent::DebugDump => self.is_debug_pressed,
        }
    }

    /// This controller with intent `i` held or not, and all else kept.
    pub open spec fn with_pressed(self, i: Intent, held: bool) -> Self {
        match i {
            Intent::Forward => CameraController { is_forward_pressed: held, ..self },
            Intent::Backward => CameraController { is_backward_pressed: held, ..self },
            Intent::YawLeft => CameraController { is_left_pressed: held, ..self },
            Intent::YawRight => CameraController { is_right_pressed: held, ..self },
            Intent::PitchUp => CameraController { is_up_pressed: held, ..self },
            Intent::PitchDown => CameraController { is_down_pressed: held, ..self },
            Intent::RollCw => CameraController { is_zcw_pressed: held, ..self },
            Intent::RollCcw => CameraController { is_zccw_pressed: held, ..self },
            Intent::DebugDump => CameraController { is_debug_pressed: held, ..self },
        }
    }

    /// The controller after a press (`held`) or release of `key`.
    pub open spec fn after_key(self, key: Key, held: bool) -> Self {
        match intent_of(key) {
            Some(i) => self.with_pressed(i, held),
            None => self,
        }
    }

    /// A controller with step size `speed` and no intent held.
    pub fn new(speed: S) -> (r: Self)
        ensures
            r.speed == speed,
            forall|i: Intent| !#[trigger] r.pressed(i),
    {
        CameraController {
            speed,
            is_forward_pressed: false,
            is_backward_pressed: false,
            is_left_pressed: false,
            is_right_pressed: false,
            is_up_pressed: false,
            is_down_pressed: false,
            is_zcw_pressed: false,
            is_zccw_pressed: false,
            is_debug_pressed: false,
        }
    }

    /// Whether intent `i` is held.
    pub fn is_pressed(&self, i: Intent) -> (r: bool)
        ensures
            r == self.pressed(i),
    {
        match i {
            Intent::Forward => self.is_forward_pressed,
            Intent::Backward => self.is_backward_pressed,
            Intent::YawLeft => self.is_left_pressed,
            Intent::YawRight => self.is_right_pressed,
            Intent::PitchUp => self.is_up_pressed,
            Intent::PitchDown => self.is_down_pressed,
            Intent::RollCw => self.is_zcw_pressed,
            Intent::RollCcw => self.is_zccw_pressed,
            Intent::DebugDump => self.is_debug_pressed,
        }
    }

    /// Holds or releases intent `i`, leaving every other intent as it was.
    pub fn set_pressed(&mut self, i: Intent, held: bool)
        ensures
            *final(self) == old(self).with_pressed(i, held),
            final(self).pressed(i) == held,
            forall|j: Intent| j != i ==> #[trigger] final(self).pressed(j) == old(self).pressed(j),
    {
        match i {
            Intent::Forward => self.is_forward_pressed = held,
            Intent::Backward => self.is_backward_pressed = held,
            Intent::YawLeft => self.is_left_pressed = held,
            Intent::YawRight => self.is_right_pressed = held,
            Intent::PitchUp => self.is_up_pressed = held,
            Intent::PitchDown => self.is_down_pressed = held,
            Intent::RollCw => self.is_zcw_pressed = held,
            Intent::RollCcw => self.is_zccw_pressed = held,
            Intent::DebugDump => self.is_debug_pressed = held,
        }
    }

    /// Applies a press (`pressed`) or release of `key`: the intent bound to
    /// the key is set to `pressed`. Returns whether the key is bound; an
    /// unbound key changes nothing.
    pub fn process_events(&mut self, key: Key, pressed: bool) -> (consumed: bool)
        ensures
            consumed == intent_of(key) is Some,
            *final(self) == old(self).after_key(key, pressed),
            consumed ==> final(self).pressed(intent_of(key).unwrap()) == pressed,
            forall|j: Intent|
                intent_of(key) != Some(j) ==> #[trigger] final(self).pressed(j) == old(self).pressed(
                    j,
                ),
    {
        match intent_for_key(key) {
            Some(i) => {
                self.set_pressed(i, pressed);
                true
            },
            None => false,
        }
    }

    /// Whether intent `i` moves the camera this frame. Moving toward the
    /// target also needs `may_advance`: the caller's word that the eye is
    /// farther from the target than one step.
    pub open spec fn fires(self, i: Intent, may_advance: bool) -> bool {
        &&& self.pressed(i)
        &&& step_of(i) is Some
        &&& (i == Intent::Forward ==> may_advance)
    }

    /// The steps that the intents of `order` give, in that order.
    pub open spec fn planned(self, may_advance: bool, order: Seq<Intent>) -> Seq<Step>
        decreases order.len(),
    {
        if order.len() == 0 {
            Seq::empty()
        } else {
            let rest = self.planned(may_advance, order.drop_last());
            if self.fires(order.last(), may_advance) {
                rest.push(step_of(order.last()).unwrap())
            } else {
                rest
            }
        }
    }

    /// The steps of one frame.
    pub open spec fn steps(self, may_advance: bool) -> Seq<Step> {
        self.planned(may_advance, update_order())
    }

    /// Lists the steps that this frame applies to the pose, in the order in
    /// which they are applied: one for each held intent that moves the camera.
    pub fn frame_steps(&self, may_advance: bool) -> (r: Vec<Step>)
        ensures
            r@ == self.steps(may_advance),
    {
        let order: Vec<Intent> = vec![
            Intent::Forward,
            Intent::Backward,
            Intent::YawRight,
            Intent::YawLeft,
            Intent::PitchDown,
            Intent::PitchUp,
            Intent::RollCw,
            Intent::RollCcw,
        ];
        assert(order@ == update_order());
        let mut r: Vec<Step> = Vec::new();
        let mut k: usize = 0;
        while k < order.len()
            invariant
                k <= order.len(),
                order@ == update_order(),
                r@ == self.planned(may_advance, order@.take(k as int)),
            decreases order.len() - k,
        {
            let i = order[k];
            assert(order@.take(k + 1).drop_last() == order@.take(k as int));
            assert(order@.take(k + 1).last() == i);
            let held = self.is_pressed(i) && (i != Intent::Forward || may_advance);
            match step_for(i) {
                Some(s) => {
                    if held {
                        r.push(s);
                    }
                },
                None => {},
            }
            k = k + 1;
        }
        assert(order@.take(order.len() as int) == order@);
        r
    }

    /// A step is planned exactly when some intent of `order` that moves the
    /// camera this frame has that step.
    pub proof fn lemma_planned_contains(self, may_advance: bool, order: Seq<Intent>, s: Step)
        ensures
            self.planned(may_advance, order).contains(s) <==> exists|k: int|
                0 <= k < order.len() && self.fires(#[trigger] order[k], may_advance) && step_of(
                    order[k],
                ) == Some(s),
        decreases order.len(),
    {
        if order.len() > 0 {
            let rest = order.drop_last();
            self.lemma_planned_contains(may_advance, rest, s);
            if self.planned(may_advance, order).contains(s) {
                if !self.planned(may_advance, rest).contains(s) {
                    assert(self.fires(order[order.len() - 1], may_advance));
                } else {
                    let k = choose|k: int|
                        0 <= k < rest.len() && self.fires(#[trigger] rest[k], may_advance)
                            && step_of(rest[k]) == Some(s);
                    assert(order[k] == rest[k]);
                }
            }
            if exists|k: int|
                0 <= k < order.len() && self.fires(#[trigger] order[k], may_advance) && step_of(
                    order[k],
                ) == Some(s) {
                let k = choose|k: int|
                    0 <= k < order.len() && self.fires(#[trigger] order[k], may_advance)
                        && step_of(order[k]) == Some(s);
                if k < order.len() - 1 {
                    assert(rest[k] == order[k]);
                    let p = self.planned(may_advance, rest);
                    let idx = choose|idx: int| 0 <= idx < p.len() && p[idx] == s;
                    if self.fires(order.last(), may_advance) {
                        assert(p.push(step_of(order.last()).unwrap())[idx] == s);
                    }
                } else {
                    let p = self.planned(may_advance, rest);
                    assert(p.push(s)[p.len() as int] == s);
                }
            }
        }
    }

    /// A frame moves the eye toward the target exactly when the forward
    /// intent is held and the caller allows it: without room to advance, the
    /// eye never crosses the target. Moving away needs no permission.
    pub proof fn lemma_dolly_steps(self, may_advance: bool)
        ensures
            self.steps(may_advance).contains(Step::Advance) <==> (may_advance && self.pressed(
                Intent::Forward,
            )),
            !self.steps(false).contains(Step::Advance),
            self.steps(may_advance).contains(Step::Retreat) <==> self.pressed(Intent::Backward),
    {
        let order = update_order();
        self.lemma_planned_contains(may_advance, order, Step::Advance);
        self.lemma_planned_contains(false, order, Step::Advance);
        self.lemma_planned_contains(may_advance, order, Step::Retreat);
        if may_advance && self.pressed(Intent::Forward) {
            assert(self.fires(order[0], may_advance));
        }
        if self.pressed(Intent::Backward) {
            assert(self.fires(order[1], may_advance));
        }
    }

    /// With no intent held, a frame applies no step: eye and angles stay.
    pub proof fn lemma_idle_frame_moves_nothing(self, may_advance: bool)
        requires
            forall|i: Intent| !#[trigger] self.pressed(i),
        ensures
            self.steps(may_advance) == Seq::<Step>::empty(),
    {
        let p = self.steps(may_advance);
        if p.len() > 0 {
            self.lemma_planned_contains(may_advance, update_order(), p[0]);
            assert(p.contains(p[0]));
        }
        assert(p =~= Seq::<Step>::empty());
    }

    /// Pressing (or releasing) a key again has no further effect: intents are
    /// held or not, never counted.
    pub proof fn lemma_repeated_key_is_idempotent(self, key: Key, pressed: bool)
        ensures
            self.after_key(key, pressed).after_key(key, pressed) == self.after_key(key, pressed),
    {
    }
}

} // verus!
