use rusty_aquarium::bandata::{clamp, min_date, Bandata, DateProxy, DateTimeProxy, Journey, Journeys};
use rusty_aquarium::fish_legend::FishLegend;
use rusty_aquarium::geometry::Rect;
use rusty_aquarium::legend::Legend;
use rusty_aquarium::scene_config::SceneConfig;
use rusty_aquarium::scenes::Scenes;
use rusty_aquarium::show_legend::ShowLegend;
use rusty_aquarium::show_text::ShowText;

#[test]
fn scenes_cycle_and_wrap() {
    let mut scenes = Scenes::new(vec![
        SceneConfig::new(Some("a.json".to_string()), 1),
        SceneConfig::new(None, 0),
    ]);
    assert!(scenes.is_switching());
    assert_eq!(scenes.input_data_path(), Some("a.json".to_string()));
    scenes.tick(1000);
    assert!(!scenes.needs_reloading());
    scenes.tick(1);
    assert!(scenes.needs_reloading());
    scenes.next();
    assert_eq!(scenes.current_scene, 1);
    assert_eq!(scenes.time, 0);
    assert!(!scenes.is_switching());
    assert_eq!(scenes.input_data_path(), None);
    scenes.next();
    assert_eq!(scenes.current_scene, 0);
    assert!(!scenes.toggle_switching());
    assert!(!scenes.is_switching());
}

#[test]
fn empty_scenes_do_not_switch() {
    let scenes = Scenes::empty();
    assert!(!scenes.is_switching());
    assert_eq!(scenes.scene_background(), 0);
    assert!(scenes.legend().is_none());
    let config = SceneConfig::default();
    assert_eq!(config.display_time, 30);
    assert!(config.input_data_path.is_none());
}

#[test]
fn show_legend_toggles() {
    let own = Legend { description: "own".to_string(), fish_legends: vec![] };
    let scene = Legend {
        description: "scene".to_string(),
        fish_legends: vec![FishLegend { fish: "a".to_string(), description: "b".to_string() }],
    };
    let mut shown = ShowLegend::empty();
    shown.toggle_show(Some(scene.clone()));
    assert!(shown.showing);
    assert_eq!(shown.current_legend.as_ref().unwrap().fish_legends[0].description, "b");
    shown.hide_legend();
    assert!(!shown.showing);
    assert!(shown.current_legend.is_none());
    let mut shown = ShowLegend::new(Some(own));
    assert!(!shown.showing);
    shown.toggle_show(Some(scene));
    assert_eq!(shown.current_legend.as_ref().unwrap().description, "own");
    shown.toggle_show(None);
    assert!(!shown.showing);
}

#[test]
fn notice_counts_down() {
    let mut text = ShowText::new("Next scene".to_string());
    assert!(text.tick(1500));
    assert!(text.tick(1500));
    assert!(!text.tick(10));
    assert!(!ShowText::empty().tick(10));
}

fn item(journey: u16, boardings: Option<u32>, departure: &str) -> Bandata {
    Bandata {
        boardings,
        alightings: Some(0),
        arr_time_obs_pub_trans: None,
        dep_time_tar_pub_trans: DateTimeProxy(departure.to_string()).to_datetime(),
        journey_number: journey,
        line_number: 29,
        operating_day_date: DateProxy("2021-03-26".to_string()),
        passengers_onboard: Some(1),
    }
}

#[test]
fn datetime_text_is_read() {
    let proxy = DateTimeProxy("2021-03-26 05:05:00".to_string());
    assert_eq!(proxy.as_str(), "2021-03-26 05:05:00");
    assert_eq!(proxy.to_datetime(), Some(1_616_735_100));
    assert_eq!(DateTimeProxy("not a date".to_string()).to_datetime(), None);
    assert_eq!(DateTimeProxy(String::new()).to_datetime(), None);
    assert_eq!(DateProxy("2021-03-26".to_string()).as_str(), "2021-03-26");
}

#[test]
fn journeys_sum_boardings() {
    let items = vec![
        item(201, Some(1), "2021-03-26 05:05:00"),
        item(202, Some(4), "2021-03-26 05:15:00"),
        item(201, Some(3), "2021-03-26 05:00:00"),
        item(203, None, ""),
        item(204, Some(1), "2021-03-26 05:25:00"),
    ];
    let journeys = Journeys::from_items(&items);
    assert_eq!(journeys.journeys.len(), 4);
    assert_eq!(journeys.journeys[0], (201, Journey { boardings: 4, departure_time: Some(1_616_734_800) }));
    assert_eq!(journeys.max_boardings, 4);
    assert_eq!(journeys.earliest_departure_time, Some(1_616_734_800));
    assert_eq!(journeys.latest_departure_time, Some(1_616_736_300));
    assert_eq!(journeys.duration_in_seconds(), 1500);
    let school = journeys.to_school();
    // journey 203 has no boardings, so too small a share to keep
    assert_eq!(school.len(), 3);
    assert_eq!(school[0].fish, "goldfish");
    assert_eq!(school[0].size, 1000);
    assert_eq!(school[0].speed, 1000);
    assert_eq!(school[1].size, 1000);
    assert_eq!(school[1].speed, 400);
    assert_eq!(school[1].bubbles, 1000);
    assert_eq!(school[2].size, 250);
    assert_eq!(school[2].speed, 0);
}

#[test]
fn journey_update_keeps_earliest() {
    let mut journey = Journey::from_bandata(&item(1, Some(2), "2021-03-26 06:00:00"));
    journey.update(&item(1, None, "2021-03-26 05:00:00"));
    assert_eq!(journey.boardings, 2);
    assert_eq!(journey.departure_time, Some(1_616_734_800));
    assert_eq!(min_date(None, Some(3)), Some(3));
    assert_eq!(min_date(Some(5), None), Some(5));
    assert_eq!(min_date(None, None), None);
    assert_eq!(min_date(Some(5), Some(3)), Some(3));
    assert_eq!(clamp(50), 100);
    assert_eq!(clamp(5000), 1000);
    assert_eq!(clamp(500), 500);
    let _ = Rect { x: 0, y: 0, w: 0, h: 0 };
}
