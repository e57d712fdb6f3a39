use vstd::prelude::*;

verus! {

/// Largest scaling factor of a feed record, in thousandths.
pub const MAX_FACTOR: u64 = 100_000;

/// One feed record: a fish of species `fish`, with its width, top speed and
/// bubble count scaled by the factors, each in thousandths (1000 leaves the
/// species' value as it is).
#[derive(Clone, Debug)]
pub struct FishData {
    pub fish: String,
    pub size: u64,
    pub speed: u64,
    pub bubbles: u64,
}

impl FishData {
    pub open spec fn wf(self) -> bool {
        self.size <= MAX_FACTOR && self.speed <= MAX_FACTOR && self.bubbles <= MAX_FACTOR
    }
}

} // verus!
