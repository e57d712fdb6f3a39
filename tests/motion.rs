use rusty_aquarium::collision::Collision;
use rusty_aquarium::fish::{Fish, TextureSize};
use rusty_aquarium::fish_config::FishConfig;
use rusty_aquarium::geometry::{Rect, Vec2, UNIT};
use rusty_aquarium::motion::Motion;
use rusty_aquarium::movement::{Movement, MovementRolls};

fn motion(speed: Vec2, max_speed: Vec2) -> Motion {
    Motion {
        position: Vec2 { x: 50 * UNIT, y: 30 * UNIT },
        speed,
        max_speed,
        acceleration: Vec2 { x: 150, y: 150 },
        rotation: 0,
        idle: false,
    }
}

fn area() -> Rect {
    Rect { x: 0, y: 0, w: 100 * UNIT, h: 62_500_000 }
}

#[test]
fn move_position_advances_by_speed_times_delta() {
    let mut holder = motion(Vec2 { x: 0, y: 0 }, Vec2 { x: 0, y: 0 });
    let m = motion(Vec2 { x: 1000, y: -2000 }, Vec2 { x: 1000, y: 2000 });
    let r = holder.move_position(500, m, area());
    // 1 unit per second for half a second: half a unit
    assert_eq!(r.position, Vec2 { x: 50 * UNIT + 500_000, y: 30 * UNIT - 1_000_000 });
    assert_eq!(r.speed, m.speed);
}

#[test]
fn move_position_idle_stays_put() {
    let mut holder = motion(Vec2 { x: 0, y: 0 }, Vec2 { x: 0, y: 0 });
    let mut m = motion(Vec2 { x: 1000, y: 1000 }, Vec2 { x: 1000, y: 1000 });
    m.idle = true;
    assert_eq!(holder.move_position(1000, m, area()).position, m.position);
}

#[test]
fn move_position_clamps_to_the_box() {
    let mut holder = motion(Vec2 { x: 0, y: 0 }, Vec2 { x: 0, y: 0 });
    let m = motion(Vec2 { x: 100_000, y: -100_000 }, Vec2 { x: 100_000, y: 100_000 });
    let r = holder.move_position(100_000, m, area());
    assert_eq!(r.position, Vec2 { x: 100 * UNIT, y: 0 });
}

#[test]
fn advancing_many_times_stays_in_the_box() {
    let mut holder = motion(Vec2 { x: 0, y: 0 }, Vec2 { x: 0, y: 0 });
    let mut m = motion(Vec2 { x: 37_000, y: -21_000 }, Vec2 { x: 40_000, y: 40_000 });
    let b = Rect { x: 10 * UNIT, y: 5 * UNIT, w: 20 * UNIT, h: 7 * UNIT };
    m.position = Vec2 { x: 15 * UNIT, y: 6 * UNIT };
    for step in 0..1000u32 {
        m = holder.move_position(step % 300, m, b);
        assert!(b.x <= m.position.x && m.position.x <= b.x + b.w);
        assert!(b.y <= m.position.y && m.position.y <= b.y + b.h);
        if step % 7 == 0 {
            m.speed.x = -m.speed.x;
        }
    }
}

#[test]
fn rotate_tilts_by_vertical_share() {
    let mut m = motion(Vec2 { x: 10, y: 5 }, Vec2 { x: 20, y: 10 });
    m.rotate();
    assert_eq!(m.rotation, 150);
    let mut m = motion(Vec2 { x: -10, y: 5 }, Vec2 { x: 20, y: 10 });
    m.rotate();
    assert_eq!(m.rotation, -150);
    let mut m = motion(Vec2 { x: 10, y: 30 }, Vec2 { x: 20, y: 10 });
    m.rotate();
    assert_eq!(m.rotation, 300);
}

#[test]
fn rotate_with_zero_top_speed_is_level() {
    let mut m = motion(Vec2 { x: 10, y: 5 }, Vec2 { x: 20, y: 0 });
    m.rotation = 77;
    m.rotate();
    assert_eq!(m.rotation, 0);
}

#[test]
fn accelerate_stops_at_top_speed() {
    let mut m = motion(Vec2 { x: 900, y: -950 }, Vec2 { x: 1000, y: 1000 });
    m.acceleration = Vec2 { x: 150, y: -150 };
    m.accelerate();
    // one step may overshoot the top speed
    assert_eq!(m.speed, Vec2 { x: 1050, y: -1100 });
    m.accelerate();
    assert_eq!(m.speed, Vec2 { x: 1050, y: -1100 });
}

#[test]
fn idle_toggles_by_roll() {
    let mut m = motion(Vec2 { x: 0, y: 0 }, Vec2 { x: 0, y: 0 });
    m.idle_by_roll(5_000);
    assert!(!m.idle);
    m.idle_by_roll(4_999);
    assert!(m.idle);
    m.idle_by_roll(75_000);
    assert!(m.idle);
    m.idle_by_roll(74_999);
    assert!(!m.idle);
}

#[test]
fn mirror_at_edges() {
    let mut m = motion(Vec2 { x: 10, y: 10 }, Vec2 { x: 10, y: 10 });
    m.position = Vec2 { x: 0, y: 62_500_000 };
    let mut v = m;
    m.change_direction_by_bounding_box(area());
    assert_eq!(m.speed, Vec2 { x: -10, y: -10 });
    v.change_direction_vertically(area());
    assert_eq!(v.speed, Vec2 { x: 10, y: -10 });
    let mut inside = motion(Vec2 { x: 10, y: 10 }, Vec2 { x: 10, y: 10 });
    inside.change_direction_by_bounding_box(area());
    assert_eq!(inside.speed, Vec2 { x: 10, y: 10 });
}

#[test]
fn acceleration_turns_by_rolls() {
    let mut m = motion(Vec2 { x: 0, y: 0 }, Vec2 { x: 0, y: 0 });
    m.change_acceleration_by_rolls(1, 2_499, 5_000);
    assert_eq!(m.acceleration, Vec2 { x: -150, y: 150 });
    m.change_acceleration_by_rolls(5, 12_499, 24_999);
    assert_eq!(m.acceleration, Vec2 { x: 150, y: -150 });
}

#[test]
fn collision_turns_only_toward_the_neighbour() {
    let mut m = motion(Vec2 { x: -10, y: 3 }, Vec2 { x: 10, y: 10 });
    m.collision(Collision::Left);
    assert_eq!(m.speed.x, 10);
    m.collision(Collision::Left);
    assert_eq!(m.speed.x, 10);
    m.collision(Collision::Right);
    assert_eq!(m.speed.x, -10);
    m.collision(Collision::No);
    assert_eq!(m.speed.x, -10);
}

#[test]
fn movement_rotation_stays_bounded() {
    let kinds = [
        Movement::SingleSpeed,
        Movement::Accelerating,
        Movement::AcceleratingEdgeIdling,
        Movement::Crab,
        Movement::Random,
    ];
    for kind in kinds {
        let mut kind = kind;
        let mut m = motion(Vec2 { x: 20_000, y: -20_000 }, Vec2 { x: 20_000, y: 5_000 });
        for _ in 0..300 {
            m = kind.tick(m, area(), Collision::No);
            if kind == Movement::Crab {
                assert_eq!(m.rotation, 0);
            } else {
                assert!(m.rotation.abs() <= 300);
            }
        }
    }
}

#[test]
fn movement_sequence_by_rolls() {
    let m = motion(Vec2 { x: 900, y: 0 }, Vec2 { x: 1000, y: 1000 });
    let rolls = MovementRolls { idle: 0, turn_x: 0, turn_y: 99_999 };
    let r = Movement::Random.tick_by_rolls(m, area(), Collision::No, rolls);
    // accelerated, idling started, acceleration turned on x only, tilted
    assert_eq!(r.speed, Vec2 { x: 1050, y: 150 });
    assert!(r.idle);
    assert_eq!(r.acceleration, Vec2 { x: -150, y: 150 });
    assert_eq!(r.rotation, 45);
    let s = Movement::SingleSpeed.tick_by_rolls(m, area(), Collision::Left, rolls);
    assert_eq!(s.speed, Vec2 { x: 900, y: 0 });
    assert!(!s.idle);
}

#[test]
fn random_movement_is_never_crab() {
    for _ in 0..200 {
        assert_ne!(Movement::random(), Movement::Crab);
    }
    assert_eq!(Movement::default(), Movement::Accelerating);
}

fn fish_at(x: i64, y: i64, aversion: u64) -> Fish {
    let mut fish = Fish::new(
        4 * UNIT,
        Vec2 { x: 10_000, y: 5_000 },
        aversion,
        area(),
        Movement::SingleSpeed,
        "f.png".to_string(),
        TextureSize { width: 100, height: 50 },
        10,
    );
    fish.motion.position = Vec2 { x, y };
    fish
}

#[test]
fn new_fish_starts_in_its_area() {
    for _ in 0..200 {
        let fish = fish_at(0, 0, 0);
        let fish = Fish::new(
            fish.size.x,
            fish.motion.max_speed,
            0,
            area(),
            Movement::Crab,
            "f.png".to_string(),
            TextureSize { width: 100, height: 50 },
            3,
        );
        let b = fish.bounding_box_adjusted;
        assert_eq!(b, Rect { x: 0, y: 0, w: 96 * UNIT, h: 60_500_000 });
        let p = fish.motion.position;
        assert!(b.x <= p.x && p.x < b.x + b.w);
        assert!(b.y <= p.y && p.y < b.y + b.h);
        assert_eq!(fish.motion.speed.x.abs(), 10_000);
        assert_eq!(fish.motion.speed.y.abs(), 5_000);
        assert!(100 <= fish.motion.acceleration.x && fish.motion.acceleration.x < 200);
        assert!(100 <= fish.motion.acceleration.y && fish.motion.acceleration.y < 200);
        assert!(!fish.emits());
    }
}

#[test]
fn collision_picks_side_of_first_neighbour() {
    let fish = fish_at(10 * UNIT, 10 * UNIT, 500);
    let left = fish_at(8 * UNIT, 9 * UNIT, 0).collision_box();
    let right = fish_at(12 * UNIT, 11 * UNIT, 0).collision_box();
    let own = fish.collision_box();
    assert_eq!(fish.collision_by_rolls(&[own, left, right], &[1000, 501, 1000]), Collision::Left);
    assert_eq!(fish.collision_by_rolls(&[own, left, right], &[1000, 500, 1000]), Collision::Right);
    assert_eq!(fish.collision_by_rolls(&[own, left, right], &[1000, 500, 500]), Collision::No);
    // a neighbour on the same row is ignored
    let same_row = fish_at(12 * UNIT, 10 * UNIT, 0).collision_box();
    assert_eq!(fish.collision_by_rolls(&[same_row], &[1000]), Collision::No);
    // a much larger neighbour is ignored
    let mut large = right;
    large.w = 6 * UNIT;
    assert_eq!(fish.collision_by_rolls(&[large], &[1000]), Collision::No);
}

#[test]
fn collision_debounce_skips_the_next_tick() {
    let mut fish = fish_at(10 * UNIT, 10 * UNIT, 0);
    let other = fish_at(12 * UNIT, 11 * UNIT, 0);
    let boxes = vec![fish.collision_box(), other.collision_box()];
    let rolls = MovementRolls { idle: 99_999, turn_x: 99_999, turn_y: 99_999 };
    assert!(!fish.already_collided);
    assert_eq!(fish.collision_by_rolls(&boxes, &[1000, 1000]), Collision::Right);
    fish.tick_by_rolls(0, &boxes, &[1000, 1000], rolls);
    assert!(fish.already_collided);
    // still overlapping: no turn this tick, whatever the roll
    let boxes = vec![fish.collision_box(), other.collision_box()];
    assert_eq!(fish.collision_by_rolls(&boxes, &[1000, 1000]), Collision::No);
    fish.tick_by_rolls(0, &boxes, &[1000, 1000], rolls);
    assert!(fish.already_collided);
    // apart for a tick: the flag clears
    let far = fish_at(80 * UNIT, 50 * UNIT, 0).collision_box();
    fish.tick_by_rolls(0, &[fish.collision_box(), far], &[1000, 1000], rolls);
    assert!(!fish.already_collided);
}

#[test]
fn footprint_at_own_corner_does_not_count_as_overlap() {
    let mut fish = fish_at(10 * UNIT, 10 * UNIT, 0);
    let rolls = MovementRolls { idle: 99_999, turn_x: 99_999, turn_y: 99_999 };
    let own = fish.collision_box();
    let mut wider = own;
    wider.w += 1;
    fish.tick_by_rolls(0, &[own, wider], &[1000, 1000], rolls);
    assert!(!fish.already_collided);
    let shifted = Rect { x: own.x + 1, ..own };
    fish.tick_by_rolls(0, &[fish.collision_box(), shifted], &[1000, 1000], rolls);
    assert!(fish.already_collided);
}

#[test]
fn emit_position_is_behind_the_fish() {
    let mut fish = fish_at(10 * UNIT, 10 * UNIT, 0);
    fish.motion.speed.x = 5;
    assert!(fish.swims_right());
    assert_eq!(fish.emit_position(), Vec2 { x: 10 * UNIT, y: 11 * UNIT });
    fish.motion.speed.x = -5;
    assert!(!fish.swims_right());
    assert_eq!(fish.emit_position(), Vec2 { x: 14 * UNIT, y: 11 * UNIT });
    assert!(fish.emits());
    fish.motion.idle = true;
    assert!(!fish.emits());
}

#[test]
fn randomized_values_stay_in_their_ranges() {
    let config = FishConfig::default();
    let mut seen_smaller = false;
    for _ in 0..300 {
        let size = config.randomized_size();
        assert!(size > config.size / 2 && size <= config.size);
        seen_smaller |= size < config.size;
        let speed = config.randomized_speed();
        assert!(speed.x > config.speed.x / 2 && speed.x <= config.speed.x);
        assert!(speed.y > config.speed.y / 2 && speed.y <= config.speed.y);
        assert!(config.randomized_bubble_amount() < 25);
    }
    assert!(seen_smaller);
    let mut exact = FishConfig::default();
    exact.size_randomness = 0;
    exact.speed_randomness = Vec2 { x: 0, y: 0 };
    assert_eq!(exact.randomized_size(), exact.size);
    assert_eq!(exact.randomized_speed(), exact.speed);
}

#[test]
fn default_species_values() {
    let config = FishConfig::default();
    assert_eq!(config.texture, "ferris.png");
    assert_eq!(config.size, 7 * UNIT);
    assert_eq!(config.speed, Vec2 { x: 15_000, y: 7_000 });
    assert_eq!(config.collision_aversion, 900);
    assert_eq!(config.area, Rect { x: 5 * UNIT, y: 5 * UNIT, w: 90 * UNIT, h: 52_500_000 });
}
