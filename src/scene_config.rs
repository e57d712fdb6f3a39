use crate::legend::Legend;
use vstd::prelude::*;

verus! {

/// One scene: where its feed comes from, how many seconds it shows, its
/// background picture, and its legend.
#[derive(Debug)]
pub struct SceneConfig {
    pub input_data_path: Option<String>,
    pub display_time: u32,
    pub background: Option<usize>,
    pub legend: Option<Legend>,
}

impl Default for SceneConfig {
    fn default() -> (r: SceneConfig)
        ensures
            r.input_data_path.is_none(),
            r.display_time == 30,
            r.background.is_none(),
            r.legend.is_none(),
    {
        SceneConfig { input_data_path: None, display_time: 30, background: None, legend: None }
    }
}

impl SceneConfig {
    /// A scene of the feed at `input_data_path`, shown `display_time`
    /// seconds, with the first background and no legend.
    pub fn new(input_data_path: Option<String>, display_time: u32) -> (r: SceneConfig)
        ensures
            r.input_data_path == input_data_path,
            r.display_time == display_time,
            r.background.is_none(),
            r.legend.is_none(),
    {
        SceneConfig { input_data_path, display_time, background: None, legend: None }
    }
}

} // verus!
