use crate::fish_data::FishData;
use crate::legend::Legend;
use vstd::prelude::*;

verus! {

/// A feed: the records to populate a tank from, and an optional legend.
pub struct InputData {
    pub legend: Option<Legend>,
    pub school: Vec<FishData>,
}

impl Default for InputData {
    fn default() -> (r: InputData)
        ensures
            r.legend.is_none(),
            r.school@.len() == 0,
    {
        InputData { legend: None, school: Vec::new() }
    }
}

} // verus!
