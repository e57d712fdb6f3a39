use vstd::prelude::*;

verus! {

/// What a species stands for, as the legend shows it.
#[derive(Debug)]
pub struct FishLegend {
    pub fish: String,
    pub description: String,
}

impl Clone for FishLegend {
    fn clone(&self) -> (r: FishLegend)
        ensures
            r == *self,
    {
        FishLegend { fish: self.fish.clone(), description: self.description.clone() }
    }
}

} // verus!
