use pursuit_ai::ai::{
    heading_velocity, indicator_for, ray_may_hit, AiMovement, AiPerception, Indicator, RayHit,
    ShapeKind, Velocity,
};
use pursuit_ai::gamestate::{startgame_action, GameState};
use pursuit_ai::geometry::{distance_squared, isqrt, Point};
use pursuit_ai::player::{MoveKeys, PlayerMovement};

const OBSERVER: u64 = 7;
const PLAYER: u64 = 3;
const WALL: u64 = 9;

fn ball(entity: u64, x: i32, y: i32) -> Option<RayHit> {
    Some(RayHit { entity, point: Point::new(x, y), shape: ShapeKind::Ball })
}

#[test]
fn scenario_sight_then_chase_then_arrive() {
    let mut eyes = AiPerception::new(250);
    let origin = Point::new(0, 0);
    let ray = eyes.sight_ray(OBSERVER, origin, Some(Point::new(100, 0))).unwrap();
    assert_eq!((ray.direction_x, ray.direction_y), (100, 0));
    assert_eq!(ray.max_distance, 250);
    assert_eq!(ray.exclude, OBSERVER);
    eyes.perceive(OBSERVER, origin, ball(PLAYER, 100, 0));
    assert!(eyes.can_see_target());
    assert_eq!(eyes.target_position(), Point::new(100, 0));

    let mut legs = AiMovement::new(150);
    legs.chase(&eyes);
    assert_eq!(legs.steer(origin), Velocity { x: 150, y: 0 });
    assert!(legs.move_to_target);

    assert_eq!(legs.steer(Point::new(51, 0)), Velocity { x: 0, y: 0 });
    assert!(!legs.move_to_target);
}

#[test]
fn self_hit_is_not_a_sighting() {
    let mut eyes = AiPerception::new(250);
    eyes.perceive(OBSERVER, Point::new(0, 0), ball(OBSERVER, 0, 0));
    assert!(!eyes.can_see_target());
    assert!(!ray_may_hit(OBSERVER, OBSERVER));
    assert!(ray_may_hit(OBSERVER, PLAYER));
}

#[test]
fn beyond_range_is_not_seen() {
    let mut eyes = AiPerception::new(250);
    eyes.perceive(OBSERVER, Point::new(0, 0), ball(PLAYER, 250, 1));
    assert!(!eyes.can_see_target());
    eyes.perceive(OBSERVER, Point::new(0, 0), ball(PLAYER, 150, 200));
    assert!(eyes.can_see_target());
}

#[test]
fn obstruction_blocks_sight() {
    let mut eyes = AiPerception::new(250);
    eyes.perceive(OBSERVER, Point::new(0, 0), ball(PLAYER, 80, 0));
    let hit = Some(RayHit { entity: WALL, point: Point::new(40, 0), shape: ShapeKind::Other });
    eyes.perceive(OBSERVER, Point::new(0, 0), hit);
    assert!(!eyes.can_see_target());
    assert_eq!(eyes.target_position(), Point::new(80, 0));
}

#[test]
fn goal_sticks_after_losing_sight() {
    let mut eyes = AiPerception::new(300);
    let mut legs = AiMovement::new(100);
    eyes.perceive(OBSERVER, Point::new(10, 10), ball(PLAYER, 200, -40));
    legs.chase(&eyes);
    eyes.perceive(OBSERVER, Point::new(30, 10), None);
    legs.chase(&eyes);
    assert!(!eyes.can_see_target());
    assert_eq!(legs.target_position, Point::new(200, -40));
    assert!(legs.move_to_target);
}

#[test]
fn missing_target_gives_no_ray() {
    let eyes = AiPerception::new(250);
    assert!(eyes.sight_ray(OBSERVER, Point::new(5, 5), None).is_none());
}

#[test]
fn degenerate_direction_points_up() {
    let eyes = AiPerception::new(250);
    let ray = eyes.sight_ray(OBSERVER, Point::new(5, 5), Some(Point::new(5, 5))).unwrap();
    assert_eq!((ray.direction_x, ray.direction_y), (0, 1));
}

#[test]
fn arrival_threshold_edges() {
    let mut legs = AiMovement::new(90);
    legs.move_to(Point::new(0, 0));
    assert_eq!(legs.steer(Point::new(0, -50)), Velocity { x: 0, y: 90 });
    assert!(legs.move_to_target);
    assert_eq!(legs.steer(Point::new(30, 39)), Velocity { x: 0, y: 0 });
    assert!(!legs.move_to_target);
    assert_eq!(legs.steer(Point::new(300, 400)), Velocity { x: 0, y: 0 });
}

#[test]
fn steering_follows_the_goal_direction() {
    let mut legs = AiMovement::new(100);
    legs.move_to(Point::new(300, 400));
    assert_eq!(legs.steer(Point::new(0, 0)), Velocity { x: 60, y: 80 });
    assert_eq!(heading_velocity(&Point::new(0, 0), &Point::new(-300, -400), 100), Velocity { x: -60, y: -80 });
}

#[test]
fn new_mover_heads_for_origin() {
    let mut legs = AiMovement::new(150);
    assert!(legs.move_to_target);
    assert_eq!(legs.steer(Point::new(0, 200)), Velocity { x: 0, y: -150 });
}

#[test]
fn geometry_at_the_extremes() {
    let a = Point::new(i32::MIN, i32::MIN);
    let b = Point::new(i32::MAX, i32::MAX);
    let d = distance_squared(&a, &b);
    assert_eq!(d, 2 * (u32::MAX as u128) * (u32::MAX as u128));
    assert_eq!(isqrt(d), 6074000998);
    assert_eq!(isqrt(0), 0);
    assert_eq!(isqrt(2499), 49);
    assert_eq!(isqrt(2500), 50);
    let v = heading_velocity(&a, &b, u32::MAX);
    assert!(v.x > 0 && v.x == v.y && v.x <= u32::MAX as i64);
}

#[test]
fn indicator_follows_verdict() {
    let mut eyes = AiPerception::new(100);
    assert_eq!(indicator_for(&eyes), Indicator::Calm);
    eyes.perceive(OBSERVER, Point::new(0, 0), ball(PLAYER, 0, 60));
    assert_eq!(indicator_for(&eyes), Indicator::Alert);
}

#[test]
fn player_keys_to_velocity() {
    let player = PlayerMovement { speed: 200 };
    let none = MoveKeys { up: false, down: false, left: false, right: false };
    assert_eq!(player.velocity(none), Velocity { x: 0, y: 0 });
    let up = MoveKeys { up: true, ..none };
    assert_eq!(player.velocity(up), Velocity { x: 0, y: 200 });
    let both = MoveKeys { up: true, down: true, ..none };
    assert_eq!(player.velocity(both), Velocity { x: 0, y: 0 });
    let diagonal = MoveKeys { down: true, left: true, ..none };
    assert_eq!(player.velocity(diagonal), Velocity { x: -141, y: -141 });
}

#[test]
fn start_screen_keys() {
    let act = startgame_action(true, false);
    assert!(act.start_playing && !act.exit);
    let act = startgame_action(false, true);
    assert!(!act.start_playing && act.exit);
    assert_ne!(GameState::Startup, GameState::Playing);
}
