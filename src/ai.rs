use vstd::prelude::*;
use crate::geometry::{Point, dist_sq, int_sqrt, lemma_isqrt_bounds, distance_squared, isqrt};

verus! {

/// Below this distance from its goal a mover has arrived.
pub const ARRIVAL_DISTANCE: u128 = 50;

/// A velocity command, in world units per second.
#[derive(Clone, Copy, Debug, PartialEq, Eq, Structural)]
pub struct Velocity {
    pub x: i64,
    pub y: i64,
}

/// One component of `speed` times the unit vector along `(c, _)` whose
/// length rounds down to `len`, truncated toward zero.
pub open spec fn scaled_component(c: int, speed: int, len: int) -> int {
    if c < 0 {
        -(((-c) * speed) / len)
    } else {
        (c * speed) / len
    }
}

/// The velocity of magnitude `speed` from `from` toward `to`, on integers.
pub open spec fn velocity_toward(from: Point, to: Point, speed: int) -> Velocity {
    let len = int_sqrt(dist_sq(from, to));
    Velocity {
        x: scaled_component(to.x - from.x, speed, len) as i64,
        y: scaled_component(to.y - from.y, speed, len) as i64,
    }
}

/// Movement state of one agent: how fast it moves, and where to.
#[derive(Clone, Copy, Debug, PartialEq, Eq, Structural)]
pub struct AiMovement {
    pub move_speed: u32,
    /// Whether a goal is active; `target_position` means something only then.
    pub move_to_target: bool,
    pub target_position: Point,
}

/// What one steering step does to a mover at `position`: the new state and
/// the velocity it emits.
pub open spec fn steer_spec(m: AiMovement, position: Point) -> (AiMovement, Velocity) {
    let zero = Velocity { x: 0, y: 0 };
    if !m.move_to_target {
        (m, zero)
    } else if dist_sq(position, m.target_position) < (ARRIVAL_DISTANCE * ARRIVAL_DISTANCE) as int {
        (AiMovement { move_to_target: false, ..m }, zero)
    } else {
        (m, velocity_toward(position, m.target_position, m.move_speed as int))
    }
}

/// `speed * |c| / len`, with `|c| <= len`, stays within `speed`.
pub(crate) proof fn lemma_scaled_bound(a: int, speed: int, len: int)
    requires
        0 <= a <= len,
        0 < len,
        0 <= speed,
    ensures
        0 <= (a * speed) / len <= speed,
{
    assert(a * speed <= len * speed) by (nonlinear_arith)
        requires 0 <= a <= len, 0 <= speed;
    assert(0 <= a * speed) by (nonlinear_arith)
        requires 0 <= a, 0 <= speed;
    assert((a * speed) / len <= (len * speed) / len) by (nonlinear_arith)
        requires a * speed <= len * speed, 0 < len;
    assert((len * speed) / len == speed) by (nonlinear_arith)
        requires 0 < len;
    assert(0 <= (a * speed) / len) by (nonlinear_arith)
        requires 0 <= a * speed, 0 < len;
}

fn scale_component(c: i64, speed: u32, len: u128) -> (r: i64)
    requires
        0 < len,
        c * c <= len * len,
        c * c < 0x1_0000_0000_0000_0000,
    ensures
        r == scaled_component(c as int, speed as int, len as int),
{
    assert(-0x1_0000_0000 < c < 0x1_0000_0000) by (nonlinear_arith)
        requires c * c < 0x1_0000_0000_0000_0000;
    let a: u128 = if c < 0 { (-c) as u128 } else { c as u128 };
    assert(a <= len) by (nonlinear_arith)
        requires a == c || a == -c, 0 <= a, 0 < len, c * c <= len * len;
    assert(a < 0x1_0000_0000) by (nonlinear_arith)
        requires a == c || a == -c, 0 <= a, c * c < 0x1_0000_0000_0000_0000;
    assert(a * speed < 0x1_0000_0000_0000_0000u128) by (nonlinear_arith)
        requires a < 0x1_0000_0000u128, speed < 0x1_0000_0000u128;
    proof {
        lemma_scaled_bound(a as int, speed as int, len as int);
    }
    let q: u128 = (a * speed as u128) / len;
    if c < 0 {
        -(q as i64)
    } else {
        q as i64
    }
}

/// The velocity of magnitude `speed` from `from` toward a different point `to`.
pub fn heading_velocity(from: &Point, to: &Point, speed: u32) -> (v: Velocity)
    requires
        from != to,
    ensures
        v == velocity_toward(*from, *to, speed as int),
{
    let d2 = distance_squared(from, to);
    let len = isqrt(d2);
    let (dx, dy) = from.delta_to(to);
    proof {
        assert(len * len <= d2);
        assert(d2 > 0) by {
            if d2 == 0 {
                assert((to.x - from.x) * (to.x - from.x) >= 0) by (nonlinear_arith);
                assert((to.y - from.y) * (to.y - from.y) >= 0) by (nonlinear_arith);
                assert((to.x - from.x) * (to.x - from.x) == 0);
                assert(to.x - from.x == 0) by (nonlinear_arith)
                    requires (to.x - from.x) * (to.x - from.x) == 0;
                assert(to.y - from.y == 0) by (nonlinear_arith)
                    requires (to.y - from.y) * (to.y - from.y) == 0;
            }
        }
        assert(len > 0) by {
            if len == 0 {
                assert(d2 < 1);
            }
        }
        assert(dx * dx <= d2 && dy * dy <= d2) by (nonlinear_arith)
            requires d2 == dx * dx + dy * dy;
        let ax: int = if dx < 0 { -dx } else { dx as int };
        let ay: int = if dy < 0 { -dy } else { dy as int };
        assert(ax * ax == dx * dx) by (nonlinear_arith)
            requires ax == dx || ax == -dx;
        assert(ay * ay == dy * dy) by (nonlinear_arith)
            requires ay == dy || ay == -dy;
        lemma_isqrt_bounds(d2 as int, len as int, ax);
        lemma_isqrt_bounds(d2 as int, len as int, ay);
        assert(dx * dx <= len * len) by (nonlinear_arith)
            requires (dx <= len && -dx <= len), 0 <= len;
        assert(dy * dy <= len * len) by (nonlinear_arith)
            requires (dy <= len && -dy <= len), 0 <= len;
        assert(dx * dx < 0x1_0000_0000_0000_0000) by (nonlinear_arith)
            requires -0xFFFF_FFFF <= dx <= 0xFFFF_FFFF;
        assert(dy * dy < 0x1_0000_0000_0000_0000) by (nonlinear_arith)
            requires -0xFFFF_FFFF <= dy <= 0xFFFF_FFFF;
    }
    let vx = scale_component(dx, speed, len);
    let vy = scale_component(dy, speed, len);
    Velocity { x: vx, y: vy }
}

impl AiMovement {
    pub fn new(move_speed: u32) -> (r: AiMovement)
        ensures
            r.move_speed == move_speed,
            r.move_to_target,
            r.target_position == (Point { x: 0, y: 0 }),
    {
        AiMovement { move_speed, move_to_target: true, target_position: Point { x: 0, y: 0 } }
    }

    /// Give the mover a new goal and make it active.
    pub fn move_to(&mut self, target: Point)
        ensures
            *final(self) == (AiMovement { target_position: target, move_to_target: true, ..*old(self) }),
    {
        self.target_position = target;
        self.move_to_target = true;
    }

    /// One steering step from `position`: zero velocity without a goal or on
    /// arrival (which ends the goal), else full speed straight at the goal.
    pub fn steer(&mut self, position: Point) -> (v: Velocity)
        ensures
            (*final(self), v) == steer_spec(*old(self), position),
    {
        let zero = Velocity { x: 0, y: 0 };
        if !self.move_to_target {
            return zero;
        }
        let d2 = distance_squared(&position, &self.target_position);
        if d2 < ARRIVAL_DISTANCE * ARRIVAL_DISTANCE {
            self.move_to_target = false;
            return zero;
        }
        assert(position != self.target_position) by {
            if position == self.target_position {
                let t = self.target_position;
                assert(t.x - position.x == 0 && t.y - position.y == 0);
                assert(dist_sq(position, t) == 0) by (nonlinear_arith)
                    requires t.x - position.x == 0, t.y - position.y == 0;
            }
        }
        heading_velocity(&position, &self.target_position, self.move_speed)
    }
}

/// The shape of a collider that a ray hit. The target is the one ball in
/// the world.
#[derive(Clone, Copy, Debug, PartialEq, Eq, Structural)]
pub enum ShapeKind {
    Ball,
    Other,
}

/// The first collider that a solid ray cast stopped at.
#[derive(Clone, Copy, Debug, PartialEq, Eq, Structural)]
pub struct RayHit {
    /// The entity that owns the collider.
    pub entity: u64,
    /// Where the ray met it, in world units.
    pub point: Point,
    pub shape: ShapeKind,
}

/// A ray to cast for one observer: from `origin` along `direction` (never
/// zero), at most `max_distance` far, skipping `exclude`.
#[derive(Clone, Copy, Debug, PartialEq, Eq, Structural)]
pub struct SightRay {
    pub origin: Point,
    pub direction_x: i64,
    pub direction_y: i64,
    pub max_distance: u32,
    pub exclude: u64,
}

/// Perception state of one observer.
#[derive(Clone, Copy, Debug, PartialEq, Eq, Structural)]
pub struct AiPerception {
    pub visual_range: u32,
    /// The verdict of the last sensing pass.
    pub can_see_target: bool,
    /// Where the target was last seen; meaningful once it has been seen.
    pub target_position: Point,
}

/// Whether `hit`, the result of the observer's ray, is a sighting of the
/// target: a ball, not the observer itself, within visual range.
pub open spec fn is_sighting(p: AiPerception, observer: u64, position: Point, hit: Option<RayHit>) -> bool {
    match hit {
        Some(h) => h.entity != observer && h.shape == ShapeKind::Ball
            && dist_sq(position, h.point) <= (p.visual_range as int) * (p.visual_range as int),
        None => false,
    }
}

/// The perception state after a sensing pass whose ray returned `hit`.
pub open spec fn perceive_spec(p: AiPerception, observer: u64, position: Point, hit: Option<RayHit>) -> AiPerception {
    if is_sighting(p, observer, position, hit) {
        AiPerception { can_see_target: true, target_position: hit.unwrap().point, ..p }
    } else {
        AiPerception { can_see_target: false, ..p }
    }
}

/// The movement state after the pursuit rule reads perception `p`.
pub open spec fn chase_spec(m: AiMovement, p: AiPerception) -> AiMovement {
    if p.can_see_target {
        AiMovement { target_position: p.target_position, move_to_target: true, ..m }
    } else {
        m
    }
}

/// Whether the ray of `observer` may stop at a collider of `candidate`.
pub fn ray_may_hit(observer: u64, candidate: u64) -> (r: bool)
    ensures
        r == (candidate != observer),
{
    candidate != observer
}

impl AiPerception {
    pub fn new(visual_range: u32) -> (r: AiPerception)
        ensures
            r.visual_range == visual_range,
            !r.can_see_target,
            r.target_position == (Point { x: 0, y: 0 }),
    {
        AiPerception { visual_range, can_see_target: false, target_position: Point { x: 0, y: 0 } }
    }

    pub fn can_see_target(&self) -> (r: bool)
        ensures
            r == self.can_see_target,
    {
        self.can_see_target
    }

    pub fn target_position(&self) -> (r: Point)
        ensures
            r == self.target_position,
    {
        self.target_position
    }

    /// The ray that `observer`, standing at `position`, casts toward the
    /// target at `target`; `None` when there is no target this tick.
    pub fn sight_ray(&self, observer: u64, position: Point, target: Option<Point>) -> (r: Option<SightRay>)
        ensures
            target.is_none() <==> r.is_none(),
            target.is_some() ==> ({
                let t = target.unwrap();
                let ray = r.unwrap();
                &&& ray.origin == position
                &&& ray.max_distance == self.visual_range
                &&& ray.exclude == observer
                &&& if t == position {
                    ray.direction_x == 0 && ray.direction_y == 1
                } else {
                    ray.direction_x == t.x - position.x && ray.direction_y == t.y - position.y
                }
            }),
    {
        match target {
            None => None,
            Some(t) => {
                let (dx, dy) = position.delta_to(&t);
                let (direction_x, direction_y) = if dx == 0 && dy == 0 { (0i64, 1i64) } else { (dx, dy) };
                Some(SightRay { origin: position, direction_x, direction_y, max_distance: self.visual_range, exclude: observer })
            }
        }
    }

    /// Record the verdict of a sensing pass by `observer` at `position`,
    /// whose ray returned `hit`. The last seen position is kept when the
    /// target is not seen.
    pub fn perceive(&mut self, observer: u64, position: Point, hit: Option<RayHit>)
        ensures
            *final(self) == perceive_spec(*old(self), observer, position, hit),
    {
        let seen = match hit {
            Some(h) => {
                if h.entity != observer && h.shape == ShapeKind::Ball {
                    let range = self.visual_range as u128;
                    assert(range * range < 0x1_0000_0000_0000_0000) by (nonlinear_arith)
                        requires range < 0x1_0000_0000u128;
                    distance_squared(&position, &h.point) <= range * range
                } else {
                    false
                }
            }
            None => false,
        };
        if seen {
            self.can_see_target = true;
            self.target_position = hit.unwrap().point;
        } else {
            self.can_see_target = false;
        }
    }
}

impl AiMovement {
    /// The pursuit rule: on a sighting, make the last seen position the goal;
    /// otherwise leave the goal as it is.
    pub fn chase(&mut self, perceiver: &AiPerception)
        ensures
            *final(self) == chase_spec(*old(self), *perceiver),
    {
        if perceiver.can_see_target {
            self.move_to(perceiver.target_position);
        }
    }
}

/// What an observer's debug indicator shows.
#[derive(Clone, Copy, Debug, PartialEq, Eq, Structural)]
pub enum Indicator {
    Alert,
    Calm,
}

/// Red-or-green debug signal: `Alert` while the target is in sight, `Calm` when not.
pub fn indicator_for(perceiver: &AiPerception) -> (r: Indicator)
    ensures
        r == (if perceiver.can_see_target { Indicator::Alert } else { Indicator::Calm }),
{
    if perceiver.can_see_target {
        Indicator::Alert
    } else {
        Indicator::Calm
    }
}

} // verus!
