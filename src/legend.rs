use crate::fish_legend::FishLegend;
use vstd::prelude::*;

verus! {

/// A text that explains a scene, with a line per species.
#[derive(Debug)]
pub struct Legend {
    pub description: String,
    pub fish_legends: Vec<FishLegend>,
}

impl View for Legend {
    type V = (Seq<char>, Seq<FishLegend>);

    open spec fn view(&self) -> (Seq<char>, Seq<FishLegend>) {
        (self.description@, self.fish_legends@)
    }
}

/// What an optional legend holds.
pub open spec fn legend_view(legend: Option<Legend>) -> Option<(Seq<char>, Seq<FishLegend>)> {
    match legend {
        Some(l) => Some(l@),
        None => None,
    }
}

impl Clone for Legend {
    fn clone(&self) -> (r: Legend)
        ensures
            r@ == self@,
    {
        let fish_legends = self.fish_legends.clone();
        assert(fish_legends@ =~= self.fish_legends@);
        Legend { description: self.description.clone(), fish_legends }
    }
}

} // verus!
