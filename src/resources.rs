use crate::config::Config;
use crate::fish::TextureSize;
use crate::input_data::InputData;
use vstd::prelude::*;

verus! {

/// The size of the picture named `name`.
pub struct FishTexture {
    pub name: String,
    pub size: TextureSize,
}

/// What a tank starts from: the settings, the first feed, and the sizes of
/// the species' pictures.
pub struct Resources {
    pub config: Config,
    pub input_data: InputData,
    pub fish_textures: Vec<FishTexture>,
}

} // verus!
