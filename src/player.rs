use vstd::prelude::*;
use crate::geometry::Point;
use crate::ai::{Velocity, heading_velocity, velocity_toward};

verus! {

/// How far a unit of key input reaches before it is scaled to a speed; large,
/// so that rounding the length of a diagonal changes the speed little.
pub const INPUT_REACH: i32 = 1024;

/// Movement settings of the player.
#[derive(Clone, Copy, Debug, PartialEq, Eq, Structural)]
pub struct PlayerMovement {
    pub speed: u32,
}

/// The movement keys held this frame.
#[derive(Clone, Copy, Debug, PartialEq, Eq, Structural)]
pub struct MoveKeys {
    pub up: bool,
    pub down: bool,
    pub left: bool,
    pub right: bool,
}

/// One axis of key input: +1, -1, or 0 when neither or both keys are held.
pub open spec fn axis(positive: bool, negative: bool) -> int {
    (if positive { 1int } else { 0int }) - (if negative { 1int } else { 0int })
}

/// The velocity that the held keys ask for at `speed`: none without input,
/// else `speed` along the input direction.
pub open spec fn player_velocity_spec(keys: MoveKeys, speed: int) -> Velocity {
    let dx = axis(keys.right, keys.left);
    let dy = axis(keys.up, keys.down);
    if dx == 0 && dy == 0 {
        Velocity { x: 0, y: 0 }
    } else {
        velocity_toward(
            Point { x: 0, y: 0 },
            Point { x: (dx * INPUT_REACH) as i32, y: (dy * INPUT_REACH) as i32 },
            speed,
        )
    }
}

fn axis_of(positive: bool, negative: bool) -> (r: i32)
    ensures
        r == axis(positive, negative),
{
    let p: i32 = if positive { 1 } else { 0 };
    let n: i32 = if negative { 1 } else { 0 };
    p - n
}

impl PlayerMovement {
    /// The player's velocity for the keys held this frame.
    pub fn velocity(&self, keys: MoveKeys) -> (v: Velocity)
        ensures
            v == player_velocity_spec(keys, self.speed as int),
    {
        let dx = axis_of(keys.right, keys.left);
        let dy = axis_of(keys.up, keys.down);
        if dx == 0 && dy == 0 {
            Velocity { x: 0, y: 0 }
        } else {
            let origin = Point { x: 0, y: 0 };
            let reach = Point { x: dx * INPUT_REACH, y: dy * INPUT_REACH };
            heading_velocity(&origin, &reach, self.speed)
        }
    }
}

} // verus!
