//! Discrete motion-intent state of the free-flying camera.
//!
//! The camera turns key presses into six boolean intent flags and, once per
//! tick, into a raw movement direction with one unit component per axis.
//! Opposing keys cancel, so holding both members of a pair requests no motion
//! on that axis. The continuous part of the camera (positions and angles in
//! floating point, the yaw rotation of this raw direction, the exponential
//! speed scale) lives in the host binary; it consumes the direction computed
//! here.

use vstd::prelude::*;

verus! {

/// The six logical motion keys the camera understands. The host maps physical
/// key codes to these; unrecognized codes never reach the camera.
#[derive(Clone, Copy, Debug, PartialEq, Eq, Structural)]
pub enum MotionKey {
    Forwards,
    Backwards,
    Leftwards,
    Rightwards,
    Up,
    Down,
}

/// One boolean intent flag per motion key. A flag is set while its key is
/// held down and cleared when the key is released; integration reads the
/// flags but never changes them.
#[derive(Clone, Copy, Debug, PartialEq, Eq, Structural)]
pub struct MotionIntent {
    pub forwards: bool,
    pub backwards: bool,
    pub leftwards: bool,
    pub rightwards: bool,
    pub up: bool,
    pub down: bool,
}

/// The signed unit contribution of one axis: +1 if only the positive key is
/// held, -1 if only the negative key is held, 0 if both or neither are held.
pub open spec fn axis_unit_spec(negative: bool, positive: bool) -> int {
    match (negative, positive) {
        (false, false) => 0,
        (false, true) => 1,
        (true, false) => -1,
        (true, true) => 0,
    }
}

/// The raw movement direction requested by an intent state, before the yaw
/// rotation and speed scaling applied by the host: (right/left, up/down,
/// forward/back), each component a signed unit with the first-named key the
/// positive one — holding forward alone requests +1 on the third axis.
pub open spec fn direction_spec(intent: MotionIntent) -> (int, int, int) {
    (
        axis_unit_spec(intent.leftwards, intent.rightwards),
        axis_unit_spec(intent.down, intent.up),
        axis_unit_spec(intent.backwards, intent.forwards),
    )
}

impl MotionIntent {
    /// The flag owned by a given key.
    pub open spec fn flag(self, key: MotionKey) -> bool {
        match key {
            MotionKey::Forwards => self.forwards,
            MotionKey::Backwards => self.backwards,
            MotionKey::Leftwards => self.leftwards,
            MotionKey::Rightwards => self.rightwards,
            MotionKey::Up => self.up,
            MotionKey::Down => self.down,
        }
    }

    /// This intent state with one key's flag replaced and all others kept.
    pub open spec fn with_flag(self, key: MotionKey, value: bool) -> MotionIntent {
        match key {
            MotionKey::Forwards => MotionIntent { forwards: value, ..self },
            MotionKey::Backwards => MotionIntent { backwards: value, ..self },
            MotionKey::Leftwards => MotionIntent { leftwards: value, ..self },
            MotionKey::Rightwards => MotionIntent { rightwards: value, ..self },
            MotionKey::Up => MotionIntent { up: value, ..self },
            MotionKey::Down => MotionIntent { down: value, ..self },
        }
    }

    /// A fresh camera holds no key: every intent flag starts cleared.
    pub fn new() -> (intent: MotionIntent)
        ensures
            intent == (MotionIntent {
                forwards: false,
                backwards: false,
                leftwards: false,
                rightwards: false,
                up: false,
                down: false,
            }),
    {
        MotionIntent {
            forwards: false,
            backwards: false,
            leftwards: false,
            rightwards: false,
            up: false,
            down: false,
        }
    }

    /// Pressing a key sets exactly its flag; every other flag is unchanged.
    pub fn key_pressed(&mut self, key: MotionKey)
        ensures
            *final(self) == old(self).with_flag(key, true),
    {
        self.set_flag(key, true)
    }

    /// Releasing a key clears exactly its flag; every other flag is
    /// unchanged, so a released key leaves no residual motion.
    pub fn key_released(&mut self, key: MotionKey)
        ensures
            *final(self) == old(self).with_flag(key, false),
    {
        self.set_flag(key, false)
    }

    fn set_flag(&mut self, key: MotionKey, value: bool)
        ensures
            *final(self) == old(self).with_flag(key, value),
    {
        match key {
            MotionKey::Forwards => self.forwards = value,
            MotionKey::Backwards => self.backwards = value,
            MotionKey::Leftwards => self.leftwards = value,
            MotionKey::Rightwards => self.rightwards = value,
            MotionKey::Up => self.up = value,
            MotionKey::Down => self.down = value,
        }
    }
}

/// The signed unit contribution of one axis, from its negative and positive
/// key flags. Opposing keys cancel: both held is the same as neither held.
pub fn axis_unit(negative: bool, positive: bool) -> (unit: i32)
    ensures
        unit == axis_unit_spec(negative, positive),
{
    match (negative, positive) {
        (false, false) => 0,
        (false, true) => 1,
        (true, false) => -1,
        (true, true) => 0,
    }
}

/// The raw movement direction for one tick: right/left on the first axis,
/// up/down on the second, forward/back on the third (holding the forward key
/// alone requests +1 on the third axis). The host rotates this vector by the
/// current yaw and scales it by elapsed time and speed.
pub fn movement_direction(intent: &MotionIntent) -> (direction: (i32, i32, i32))
    ensures
        direction.0 == direction_spec(*intent).0,
        direction.1 == direction_spec(*intent).1,
        direction.2 == direction_spec(*intent).2,
{
    (
        axis_unit(intent.leftwards, intent.rightwards),
        axis_unit(intent.down, intent.up),
        axis_unit(intent.backwards, intent.forwards),
    )
}

/// An intent state whose opposing flags agree on every axis — in particular a
/// camera with no key held — requests the zero direction, so integrating it
/// over any elapsed time at any speed leaves the position unchanged.
pub proof fn lemma_cancelled_intent_is_zero_direction(intent: MotionIntent)
    requires
        intent.leftwards == intent.rightwards,
        intent.down == intent.up,
        intent.forwards == intent.backwards,
    ensures
        direction_spec(intent) == (0int, 0int, 0int),
{
}

} // verus!
