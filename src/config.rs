use crate::fish_config::FishConfig;
use crate::scene_config::SceneConfig;
use vstd::prelude::*;

verus! {

/// The aquarium's settings: the default feed and display time, background
/// pictures, optional scenes, and the species table.
pub struct Config {
    pub input_data_path: Option<String>,
    pub display_time: u32,
    pub backgrounds: Vec<String>,
    pub scenes: Option<Vec<SceneConfig>>,
    pub fishes: Vec<(String, FishConfig)>,
}

impl Default for Config {
    fn default() -> (r: Config)
        ensures
            r.input_data_path.is_some(),
            r.input_data_path.unwrap()@ == "inputdata.json"@,
            r.display_time == 0,
            r.backgrounds@.len() == 0,
            r.scenes.is_none(),
            r.fishes@.len() == 0,
    {
        Config {
            input_data_path: Some("inputdata.json".to_owned()),
            display_time: 0,
            backgrounds: Vec::new(),
            scenes: None,
            fishes: Vec::new(),
        }
    }
}

} // verus!
