use vstd::prelude::*;
use crate::geometry::{Point, dist_sq, int_sqrt, lemma_isqrt_exists, lemma_isqrt_bounds};
use crate::ai::{
    AiMovement, AiPerception, RayHit, ShapeKind, Velocity, perceive_spec, chase_spec, steer_spec,
    velocity_toward, scaled_component, ARRIVAL_DISTANCE,
};

verus! {

/// A sensing pass never takes the observer itself for the target: whenever
/// the verdict is positive, the entity that the ray hit is not the observer.
pub proof fn law_self_exclusion(p: AiPerception, observer: u64, position: Point, hit: Option<RayHit>)
    ensures
        perceive_spec(p, observer, position, hit).can_see_target ==> hit.unwrap().entity != observer,
{
}

/// A target met farther than the visual range is never seen, whatever the
/// ray hit on the way.
pub proof fn law_range_bound(p: AiPerception, observer: u64, position: Point, hit: RayHit)
    requires
        dist_sq(position, hit.point) > (p.visual_range as int) * (p.visual_range as int),
    ensures
        !perceive_spec(p, observer, position, Some(hit)).can_see_target,
{
}

/// With nothing in the way, a ray that reaches the target within range
/// gives a sighting at the target's position.
pub proof fn law_clear_line_of_sight(p: AiPerception, observer: u64, position: Point, target: u64, target_position: Point)
    requires
        target != observer,
        dist_sq(position, target_position) <= (p.visual_range as int) * (p.visual_range as int),
    ensures
        ({
            let q = perceive_spec(
                p,
                observer,
                position,
                Some(RayHit { entity: target, point: target_position, shape: ShapeKind::Ball }),
            );
            q.can_see_target && q.target_position == target_position
        }),
{
}

/// A ray stopped by an obstruction that is not the target gives no sighting,
/// and the last seen position stays as it was.
pub proof fn law_obstruction(p: AiPerception, observer: u64, position: Point, hit: RayHit)
    requires
        hit.shape == ShapeKind::Other,
    ensures
        !perceive_spec(p, observer, position, Some(hit)).can_see_target,
        perceive_spec(p, observer, position, Some(hit)).target_position == p.target_position,
{
}

/// Once the target is lost from sight, the mover keeps pursuing exactly the
/// last position at which it was seen: a sighting, then a pass without one,
/// each followed by the pursuit rule, leave the goal at the sighting.
pub proof fn law_sticky_goal(
    p: AiPerception,
    m: AiMovement,
    observer: u64,
    position: Point,
    seen: RayHit,
    later: Option<RayHit>,
    later_position: Point,
)
    requires
        perceive_spec(p, observer, position, Some(seen)).can_see_target,
        !perceive_spec(perceive_spec(p, observer, position, Some(seen)), observer, later_position, later).can_see_target,
    ensures
        ({
            let p1 = perceive_spec(p, observer, position, Some(seen));
            let m1 = chase_spec(m, p1);
            let p2 = perceive_spec(p1, observer, later_position, later);
            let m2 = chase_spec(m1, p2);
            &&& p1.target_position == seen.point
            &&& p2.target_position == seen.point
            &&& m2.target_position == seen.point
            &&& m2.move_to_target
        }),
{
}

/// A component of a velocity toward a goal is at most the speed, and has the
/// sign of the matching component of the vector to the goal.
pub open spec fn component_heads(v: int, delta: int, speed: int) -> bool {
    &&& -speed <= v <= speed
    &&& delta > 0 ==> v >= 0
    &&& delta < 0 ==> v <= 0
    &&& delta == 0 ==> v == 0
}

proof fn lemma_component_heads(delta: int, speed: int, len: int)
    requires
        0 < len,
        0 <= speed,
        delta * delta <= len * len,
    ensures
        component_heads(scaled_component(delta, speed, len), delta, speed),
{
    let a = if delta < 0 { -delta } else { delta };
    assert(a <= len) by (nonlinear_arith)
        requires a == delta || a == -delta, 0 <= a, 0 < len, delta * delta <= len * len;
    crate::ai::lemma_scaled_bound(a, speed, len);
    if delta == 0 {
        assert((0 * speed) / len == 0) by (nonlinear_arith)
            requires 0 < len;
    } else if delta < 0 {
        assert(scaled_component(delta, speed, len) == -((a * speed) / len));
    } else {
        assert(scaled_component(delta, speed, len) == (a * speed) / len);
    }
}

/// A mover with a goal closer than the arrival distance stops and drops the
/// goal; farther away it keeps the goal and moves toward it: each velocity
/// component is the matching component of the to-goal vector times the speed
/// over the (integer) distance, so it is at most the speed and points the
/// same way.
pub proof fn law_arrival(m: AiMovement, position: Point)
    requires
        m.move_to_target,
    ensures
        dist_sq(position, m.target_position) < (ARRIVAL_DISTANCE * ARRIVAL_DISTANCE) as int ==> {
            &&& steer_spec(m, position).1 == (Velocity { x: 0, y: 0 })
            &&& !steer_spec(m, position).0.move_to_target
        },
        dist_sq(position, m.target_position) >= (ARRIVAL_DISTANCE * ARRIVAL_DISTANCE) as int ==> {
            &&& steer_spec(m, position).1 == velocity_toward(position, m.target_position, m.move_speed as int)
            &&& steer_spec(m, position).0 == m
            &&& component_heads(steer_spec(m, position).1.x as int, m.target_position.x - position.x, m.move_speed as int)
            &&& component_heads(steer_spec(m, position).1.y as int, m.target_position.y - position.y, m.move_speed as int)
        },
{
    let t = m.target_position;
    let n = dist_sq(position, t);
    if n >= (ARRIVAL_DISTANCE * ARRIVAL_DISTANCE) as int {
        let dx = t.x - position.x;
        let dy = t.y - position.y;
        let len = int_sqrt(n);
        let speed = m.move_speed as int;
        lemma_isqrt_exists(n);
        assert(len >= 50) by {
            if len < 50 {
                assert((len + 1) * (len + 1) <= 2500) by (nonlinear_arith)
                    requires 0 <= len < 50;
            }
        }
        assert(dx * dx >= 0 && dy * dy >= 0) by (nonlinear_arith);
        let ax = if dx < 0 { -dx } else { dx };
        let ay = if dy < 0 { -dy } else { dy };
        assert(ax * ax == dx * dx) by (nonlinear_arith)
            requires ax == dx || ax == -dx;
        assert(ay * ay == dy * dy) by (nonlinear_arith)
            requires ay == dy || ay == -dy;
        lemma_isqrt_bounds(n, len, ax);
        lemma_isqrt_bounds(n, len, ay);
        assert(dx * dx <= len * len) by (nonlinear_arith)
            requires ax == dx || ax == -dx, 0 <= ax <= len;
        assert(dy * dy <= len * len) by (nonlinear_arith)
            requires ay == dy || ay == -dy, 0 <= ay <= len;
        lemma_component_heads(dx, speed, len);
        lemma_component_heads(dy, speed, len);
    }
}

} // verus!
