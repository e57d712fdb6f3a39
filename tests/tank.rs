use rusty_aquarium::config::Config;
use rusty_aquarium::fish::TextureSize;
use rusty_aquarium::fish_config::FishConfig;
use rusty_aquarium::fish_data::FishData;
use rusty_aquarium::fish_legend::FishLegend;
use rusty_aquarium::fish_tank::FishTank;
use rusty_aquarium::geometry::{Rect, Vec2, UNIT};
use rusty_aquarium::input_data::InputData;
use rusty_aquarium::legend::Legend;
use rusty_aquarium::movement::{Movement, MovementRolls};
use rusty_aquarium::resources::{FishTexture, Resources};
use rusty_aquarium::scene_config::SceneConfig;

fn goldfish_config() -> FishConfig {
    FishConfig {
        texture: "goldfish.png".to_string(),
        size: 10 * UNIT,
        size_randomness: 0,
        movement: Movement::Accelerating,
        bubbles: 0,
        speed: Vec2 { x: 20_000, y: 5_000 },
        speed_randomness: Vec2 { x: 0, y: 0 },
        collision_aversion: 1000,
        area: Rect { x: 0, y: 0, w: 100 * UNIT, h: 62_500_000 },
    }
}

fn record(fish: &str) -> FishData {
    FishData { fish: fish.to_string(), size: 1000, speed: 1000, bubbles: 1000 }
}

fn textures() -> Vec<FishTexture> {
    vec![
        FishTexture { name: "goldfish.png".to_string(), size: TextureSize { width: 200, height: 100 } },
        FishTexture { name: "ferris.png".to_string(), size: TextureSize { width: 100, height: 100 } },
    ]
}

fn tank_with(fishes: Vec<(String, FishConfig)>, school: Vec<FishData>) -> FishTank {
    let mut tank = FishTank::new();
    tank.add_resources(Resources {
        config: Config {
            input_data_path: Some("inputdata.json".to_string()),
            display_time: 0,
            backgrounds: vec![],
            scenes: None,
            fishes,
        },
        input_data: InputData { legend: None, school },
        fish_textures: textures(),
    });
    tank
}

#[test]
fn unknown_species_yields_no_fish() {
    let tank = tank_with(
        vec![("goldfish".to_string(), goldfish_config())],
        vec![record("unicorn")],
    );
    assert!(tank.loaded);
    assert_eq!(tank.fishes.len(), 0);
}

#[test]
fn goldfish_scenario_makes_one_fish() {
    let tank = tank_with(
        vec![("goldfish".to_string(), goldfish_config())],
        vec![record("goldfish")],
    );
    assert_eq!(tank.fishes.len(), 1);
    let fish = &tank.fishes[0];
    // 10 units wide with a 2:1 picture: 5 units high
    assert_eq!(fish.size, Vec2 { x: 10 * UNIT, y: 5 * UNIT });
    assert_eq!(fish.motion.max_speed, Vec2 { x: 20_000, y: 5_000 });
    assert_eq!(fish.motion.speed.x.abs(), 20_000);
    assert_eq!(fish.motion.speed.y.abs(), 5_000);
    assert_eq!(fish.bubble_amount, 0);
    assert_eq!(
        fish.bounding_box_adjusted,
        Rect { x: 0, y: 0, w: 90 * UNIT, h: 57_500_000 }
    );
}

#[test]
fn full_aversion_never_turns_on_collision() {
    let config = goldfish_config();
    let make = || {
        Fish::new(
            config.size,
            config.speed,
            config.collision_aversion,
            config.area,
            config.movement,
            config.texture.clone(),
            TextureSize { width: 200, height: 100 },
            0,
        )
    };
    let mut a = make();
    let mut b = make();
    a.motion.position = Vec2 { x: 10 * UNIT, y: 10 * UNIT };
    b.motion.position = Vec2 { x: 12 * UNIT, y: 11 * UNIT };
    let boxes = vec![a.collision_box(), b.collision_box()];
    // the largest roll still does not exceed an aversion of one
    assert_eq!(a.collision_by_rolls(&boxes, &[1000, 1000]), Collision::No);
    assert_eq!(b.collision_by_rolls(&boxes, &[1000, 1000]), Collision::No);
    // a tick among the overlapping pair leaves the swimming direction alone
    let rolls = MovementRolls { idle: 99_999, turn_x: 99_999, turn_y: 99_999 };
    for _ in 0..50 {
        let boxes = vec![a.collision_box(), b.collision_box()];
        let direction = a.motion.speed.x.signum();
        a.tick_by_rolls(0, &boxes, &[1000, 1000], rolls);
        assert_eq!(a.motion.speed.x.signum(), direction);
    }
}

#[test]
fn only_valid_records_make_fish() {
    let mut other = goldfish_config();
    other.texture = "ferris.png".to_string();
    let mut school = Vec::new();
    for i in 0..50 {
        school.push(record(match i % 3 {
            0 => "goldfish",
            1 => "ferris",
            _ => "nosuchfish",
        }));
    }
    let tank = tank_with(
        vec![("goldfish".to_string(), goldfish_config()), ("ferris".to_string(), other)],
        school,
    );
    assert_eq!(tank.fishes.len(), 34);
    assert_eq!(tank.fishes[0].texture, "goldfish.png");
    assert_eq!(tank.fishes[1].texture, "ferris.png");
    assert_eq!(tank.fishes[2].texture, "goldfish.png");
}

#[test]
fn add_and_remove_fish() {
    let mut tank = tank_with(vec![("goldfish".to_string(), goldfish_config())], vec![]);
    assert_eq!(tank.fishes.len(), 0);
    tank.add_fish();
    assert_eq!(tank.fishes.len(), 1);
    assert!(tank.fishes[0].bubble_amount < 25);
    tank.remove_fish();
    assert_eq!(tank.fishes.len(), 0);
    tank.remove_fish();
    assert_eq!(tank.fishes.len(), 0);
}

#[test]
fn repopulate_twice_gives_same_count() {
    let mut school = Vec::new();
    for name in ["goldfish", "unicorn", "goldfish", "goldfish"] {
        school.push(record(name));
    }
    let mut tank = tank_with(vec![("goldfish".to_string(), goldfish_config())], school);
    tank.add_fish();
    assert_eq!(tank.fishes.len(), 4);
    tank.repopulate();
    assert_eq!(tank.fishes.len(), 3);
    tank.repopulate();
    assert_eq!(tank.fishes.len(), 3);
}

#[test]
fn record_factors_scale_the_species() {
    let data = FishData { fish: "goldfish".to_string(), size: 500, speed: 2000, bubbles: 3000 };
    let mut config = goldfish_config();
    config.bubbles = 7;
    let tank = tank_with(vec![("goldfish".to_string(), config)], vec![data]);
    let fish = &tank.fishes[0];
    assert_eq!(fish.size, Vec2 { x: 5 * UNIT, y: 2_500_000 });
    assert_eq!(fish.motion.max_speed, Vec2 { x: 40_000, y: 10_000 });
    assert_eq!(fish.bubble_amount, 21);
}

#[test]
fn update_config_rebuilds_from_the_feed() {
    let mut tank = tank_with(
        vec![("goldfish".to_string(), goldfish_config())],
        vec![record("goldfish"), record("ferris")],
    );
    assert_eq!(tank.fishes.len(), 1);
    let mut other = goldfish_config();
    other.texture = "ferris.png".to_string();
    tank.update_config(Config {
        input_data_path: None,
        display_time: 0,
        backgrounds: vec![],
        scenes: None,
        fishes: vec![("goldfish".to_string(), goldfish_config()), ("ferris".to_string(), other)],
    });
    assert_eq!(tank.fishes.len(), 2);
}

#[test]
fn update_data_replaces_feed_and_legend() {
    let mut tank = tank_with(vec![("goldfish".to_string(), goldfish_config())], vec![]);
    assert_eq!(tank.reload_data(), Some("inputdata.json".to_string()));
    assert!(tank.reloading);
    let legend = Legend {
        description: "boardings".to_string(),
        fish_legends: vec![FishLegend { fish: "goldfish".to_string(), description: "a bus".to_string() }],
    };
    tank.update_data(InputData { legend: Some(legend), school: vec![] });
    assert!(!tank.reloading);
    assert_eq!(tank.fishes.len(), 0);
    tank.update_data(InputData { legend: None, school: vec![record("goldfish"), record("goldfish")] });
    assert_eq!(tank.fishes.len(), 2);
}

#[test]
fn scene_clock_asks_for_next_feed() {
    let mut tank = FishTank::new();
    let mut first = SceneConfig::new(Some("first.json".to_string()), 2);
    first.background = Some(1);
    let second = SceneConfig::new(Some("second.json".to_string()), 2);
    tank.add_resources(Resources {
        config: Config {
            input_data_path: None,
            display_time: 0,
            backgrounds: vec![],
            scenes: Some(vec![first, second]),
            fishes: vec![("goldfish".to_string(), goldfish_config())],
        },
        input_data: InputData { legend: None, school: vec![record("goldfish")] },
        fish_textures: textures(),
    });
    assert_eq!(tank.scenes.scene_background(), 1);
    assert_eq!(tank.tick(1000), None);
    assert_eq!(tank.tick(1000), None);
    assert_eq!(tank.tick(1), Some("second.json".to_string()));
    assert!(tank.reloading);
    assert_eq!(tank.scenes.current_scene, 1);
    assert_eq!(tank.scenes.scene_background(), 0);
    // while the feed is on its way the clock stands still
    assert_eq!(tank.tick(5000), None);
    assert_eq!(tank.scenes.time, 0);
    tank.update_data(InputData { legend: None, school: vec![] });
    assert_eq!(tank.tick(2001), Some("first.json".to_string()));
    assert_eq!(tank.scenes.current_scene, 0);
}

#[test]
fn scene_cycling_can_be_locked() {
    let mut tank = tank_with(vec![("goldfish".to_string(), goldfish_config())], vec![]);
    // the fallback scene has a display time of zero, so it never switches
    assert_eq!(tank.tick(100_000), None);
    assert!(!tank.toggle_switching_scenes());
    assert!(tank.toggle_switching_scenes());
}

#[test]
fn toggle_legend_prefers_feed_legend() {
    let feed_legend = Legend { description: "feed".to_string(), fish_legends: vec![] };
    let scene_legend = Legend { description: "scene".to_string(), fish_legends: vec![] };
    let mut scene = SceneConfig::new(None, 10);
    scene.legend = Some(scene_legend);
    let mut tank = FishTank::new();
    tank.add_resources(Resources {
        config: Config {
            input_data_path: None,
            display_time: 0,
            backgrounds: vec![],
            scenes: Some(vec![scene]),
            fishes: vec![],
        },
        input_data: InputData { legend: None, school: vec![] },
        fish_textures: vec![],
    });
    tank.toggle_legend();
    assert!(tank.show_legend.showing);
    assert_eq!(tank.show_legend.current_legend.as_ref().unwrap().description, "scene");
    tank.toggle_legend();
    assert!(!tank.show_legend.showing);
    tank.update_data(InputData { legend: Some(feed_legend), school: vec![] });
    tank.toggle_legend();
    assert_eq!(tank.show_legend.current_legend.as_ref().unwrap().description, "feed");
    tank.next_scene();
    assert!(!tank.show_legend.showing);
    assert!(tank.show_legend.current_legend.is_none());
}

#[test]
fn tank_tick_keeps_fish_in_their_areas() {
    let mut school = Vec::new();
    for _ in 0..6 {
        school.push(record("goldfish"));
    }
    let mut tank = tank_with(vec![("goldfish".to_string(), goldfish_config())], school);
    for _ in 0..500 {
        tank.tick(50);
        for fish in &tank.fishes {
            let b = fish.bounding_box_adjusted;
            let p = fish.motion.position;
            assert!(b.x <= p.x && p.x <= b.x + b.w);
            assert!(b.y <= p.y && p.y <= b.y + b.h);
            assert!(fish.motion.rotation.abs() <= 300);
        }
    }
}

use rusty_aquarium::collision::Collision;
use rusty_aquarium::fish::Fish;
