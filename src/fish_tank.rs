use crate::config::Config;
use crate::fish::{adjusted_box, height_for, Fish, TextureSize, MAX_FISH_SIZE};
use crate::fish_config::{FishConfig, FRACTION_STEPS, RANDOM_BUBBLES};
use crate::fish_data::FishData;
use crate::fish::rolls_in_range;
use crate::geometry::{Rect, Vec2};
use crate::motion::MAX_DELTA;
use crate::movement::MovementRolls;
use crate::random::choose_item;
use crate::input_data::InputData;
use crate::random::RANDOM_BOUND_LIMIT;
use crate::resources::{FishTexture, Resources};
use crate::scene_config::SceneConfig;
use crate::scenes::Scenes;
use crate::legend::legend_view;
use crate::show_legend::ShowLegend;
use vstd::prelude::*;

verus! {

/// The population manager: the live fish, the species table, the current
/// feed, the pictures' sizes, the scenes, and the legend on screen.
///
/// `reloading` is set while a feed asked for by `reload_data` is on its way;
/// the caller hands it over with `update_data`.
pub struct FishTank {
    pub fishes: Vec<Fish>,
    pub fish_configs: Vec<(String, FishConfig)>,
    pub school: Vec<FishData>,
    pub fish_textures: Vec<FishTexture>,
    pub scenes: Scenes,
    pub reloading: bool,
    pub loaded: bool,
    pub show_legend: ShowLegend,
}

/// The first index from `i` on of a species named `key`, or `-1`.
pub open spec fn key_index(configs: Seq<(String, FishConfig)>, key: Seq<char>, i: int) -> int
    decreases configs.len() - i,
{
    if i < 0 || i >= configs.len() {
        -1
    } else if configs[i].0@ == key {
        i
    } else {
        key_index(configs, key, i + 1)
    }
}

/// The first index from `i` on of a picture named `name`, or `-1`.
pub open spec fn texture_index(textures: Seq<FishTexture>, name: Seq<char>, i: int) -> int
    decreases textures.len() - i,
{
    if i < 0 || i >= textures.len() {
        -1
    } else if textures[i].name@ == name {
        i
    } else {
        texture_index(textures, name, i + 1)
    }
}

proof fn lemma_key_index_range(configs: Seq<(String, FishConfig)>, key: Seq<char>, i: int)
    requires
        0 <= i,
    ensures
        key_index(configs, key, i) == -1 || (i <= key_index(configs, key, i) < configs.len()
            && configs[key_index(configs, key, i)].0@ == key),
    decreases configs.len() - i,
{
    if i < configs.len() && configs[i].0@ != key {
        lemma_key_index_range(configs, key, i + 1);
    }
}

proof fn lemma_texture_index_range(textures: Seq<FishTexture>, name: Seq<char>, i: int)
    requires
        0 <= i,
    ensures
        texture_index(textures, name, i) == -1 || (i <= texture_index(textures, name, i)
            < textures.len() && textures[texture_index(textures, name, i)].name@ == name),
    decreases textures.len() - i,
{
    if i < textures.len() && textures[i].name@ != name {
        lemma_texture_index_range(textures, name, i + 1);
    }
}

pub open spec fn knows_species(configs: Seq<(String, FishConfig)>, key: Seq<char>) -> bool {
    key_index(configs, key, 0) >= 0
}

/// The records of `school` whose species the table knows, in order.
pub open spec fn resolvable(school: Seq<FishData>, configs: Seq<(String, FishConfig)>) -> Seq<
    FishData,
>
    decreases school.len(),
{
    if school.len() == 0 {
        Seq::empty()
    } else {
        let earlier = resolvable(school.drop_last(), configs);
        if knows_species(configs, school.last().fish@) {
            earlier.push(school.last())
        } else {
            earlier
        }
    }
}

/// `value` scaled by `factor` thousandths.
pub open spec fn scaled(value: int, factor: int) -> int {
    value * factor / FRACTION_STEPS as int
}

/// What holds of every fish of `config` drawn with `texture`'s shape, at
/// width `size` and top speed `speed`, with `bubbles` bubbles.
pub open spec fn fresh_fish(
    fish: Fish,
    config: FishConfig,
    texture: TextureSize,
    size: int,
    speed: Vec2,
    bubbles: int,
) -> bool {
    &&& fish.wf()
    &&& fish.size == (Vec2 { x: size as i64, y: height_for(size, texture) as i64 })
    &&& fish.bounding_box_adjusted == adjusted_box(config.area, fish.size)
    &&& fish.motion.max_speed == speed
    &&& fish.motion.speed.x == speed.x || fish.motion.speed.x == -speed.x
    &&& fish.motion.speed.y == speed.y || fish.motion.speed.y == -speed.y
    &&& fish.motion.rotation == 0
    &&& !fish.motion.idle
    &&& !fish.already_collided
    &&& fish.movement == config.movement
    &&& fish.collision_aversion == config.collision_aversion
    &&& fish.texture == config.texture
    &&& fish.bubble_amount == bubbles
}

/// `fish` was made for the record `data` of species `config`: the
/// species' randomized width and top speed scaled by the record's factors,
/// and its bubble count scaled by the record's.
pub open spec fn made_from(fish: Fish, data: FishData, config: FishConfig, texture: TextureSize) -> bool {
    exists|size: int, speed: Vec2|
        config.allows_size(size) && config.allows_speed(speed) && fresh_fish(
            fish,
            config,
            texture,
            scaled(size, data.size as int),
            Vec2 {
                x: scaled(speed.x as int, data.speed as int) as i64,
                y: scaled(speed.y as int, data.speed as int) as i64,
            },
            scaled(config.bubbles as int, data.bubbles as int),
        )
}

/// `fish` was made for species `config` alone, with a random bubble count.
pub open spec fn made_for_species(fish: Fish, config: FishConfig, texture: TextureSize) -> bool {
    exists|size: int, speed: Vec2, bubbles: int|
        config.allows_size(size) && config.allows_speed(speed) && 0 <= bubbles
            < RANDOM_BUBBLES && fresh_fish(fish, config, texture, size, speed, bubbles)
}

/// A species table and picture sizes a tank can work with: names are
/// unique, each species is in range and its picture's size is known.
pub open spec fn species_ok(configs: Seq<(String, FishConfig)>, textures: Seq<FishTexture>) -> bool {
    &&& configs.len() < RANDOM_BOUND_LIMIT
    &&& forall|i: int, j: int|
        0 <= i < j < configs.len() ==> (#[trigger] configs[i]).0@ != (#[trigger] configs[j]).0@
    &&& forall|i: int|
        0 <= i < configs.len() ==> (#[trigger] configs[i]).1.wf() && texture_index(
            textures,
            configs[i].1.texture@,
            0,
        ) >= 0
    &&& forall|i: int| 0 <= i < textures.len() ==> (#[trigger] textures[i]).size.wf()
}

pub open spec fn school_ok(school: Seq<FishData>) -> bool {
    forall|i: int| 0 <= i < school.len() ==> (#[trigger] school[i]).wf()
}

/// The footprints of `fishes`, in order.
pub open spec fn footprints(fishes: Seq<Fish>) -> Seq<Rect> {
    fishes.map_values(|f: Fish| f.footprint())
}

/// `after` is `before` after one tick of `delta` milliseconds among
/// `boxes`, for some rolls in range.
pub open spec fn ticked_among(before: Fish, after: Fish, delta: int, boxes: Seq<Rect>) -> bool {
    exists|collision_rolls: Seq<u64>, rolls: MovementRolls|
        collision_rolls.len() == boxes.len() && rolls_in_range(collision_rolls) && rolls.in_range()
            && after == before.ticked(delta, boxes, collision_rolls, rolls)
}

impl FishTank {
    pub open spec fn wf(self) -> bool {
        &&& species_ok(self.fish_configs@, self.fish_textures@)
        &&& school_ok(self.school@)
        &&& forall|i: int| 0 <= i < self.fishes@.len() ==> (#[trigger] self.fishes@[i]).wf()
        &&& self.scenes.wf()
    }

    /// The species named `key`; meaningful when the table knows it.
    pub open spec fn species(self, key: Seq<char>) -> FishConfig {
        self.fish_configs@[key_index(self.fish_configs@, key, 0)].1
    }

    /// The shape of `config`'s picture.
    pub open spec fn shape(self, config: FishConfig) -> TextureSize {
        self.fish_textures@[texture_index(self.fish_textures@, config.texture@, 0)].size
    }

    /// The records of the current feed that resolve to a species.
    pub open spec fn resolvable_records(self) -> Seq<FishData> {
        resolvable(self.school@, self.fish_configs@)
    }

    /// `fishes` holds one fish per resolvable record, in order, each made
    /// for its record.
    pub open spec fn populated_by(self, fishes: Seq<Fish>) -> bool {
        let records = self.resolvable_records();
        &&& fishes.len() == records.len()
        &&& forall|i: int|
            0 <= i < fishes.len() ==> made_from(
                #[trigger] fishes[i],
                records[i],
                self.species(records[i].fish@),
                self.shape(self.species(records[i].fish@)),
            )
    }

    /// `after` is `before` with its fish rebuilt from its feed.
    pub open spec fn repopulated(before: FishTank, after: FishTank) -> bool {
        &&& after == FishTank { fishes: after.fishes, ..before }
        &&& before.populated_by(after.fishes@)
    }

    /// `self` after moving on to the next scene: a legend on screen is taken
    /// off, and a feed is asked for when the new scene names one.
    pub open spec fn after_next_scene(self) -> FishTank {
        FishTank {
            scenes: self.scenes.advanced(),
            show_legend: if self.show_legend.showing {
                self.show_legend.hidden()
            } else {
                self.show_legend
            },
            reloading: self.reloading || self.scenes.advanced().current().input_data_path.is_some(),
            ..self
        }
    }

    /// `self` after the scene clock runs `delta` milliseconds: nothing
    /// happens while a feed is on its way or cycling is off; otherwise the
    /// time runs, and the tank moves on once the scene has shown long
    /// enough.
    pub open spec fn after_scene_clock(self, delta: u32) -> FishTank {
        if self.reloading || !self.scenes.is_switching_spec() {
            self
        } else {
            let clocked = FishTank { scenes: self.scenes.ticked(delta), ..self };
            if clocked.scenes.needs_reloading_spec() {
                clocked.after_next_scene()
            } else {
                clocked
            }
        }
    }

    /// The feed that the scene clock asks for in `delta` milliseconds.
    pub open spec fn scene_clock_request(self, delta: u32) -> Option<String> {
        if self.reloading || !self.scenes.is_switching_spec() {
            None
        } else if self.scenes.ticked(delta).needs_reloading_spec() {
            self.scenes.ticked(delta).advanced().current().input_data_path
        } else {
            None
        }
    }

    /// An empty tank, not loaded yet.
    pub fn new() -> (r: FishTank)
        ensures
            r.wf(),
            r.fishes@.len() == 0,
            r.fish_configs@.len() == 0,
            r.school@.len() == 0,
            r.fish_textures@.len() == 0,
            r.scenes.scenes@.len() == 1,
            !r.scenes.switching,
            !r.reloading,
            !r.loaded,
            r.show_legend == ShowLegend::new_spec(None),
    {
        FishTank {
            fishes: Vec::new(),
            fish_configs: Vec::new(),
            school: Vec::new(),
            fish_textures: Vec::new(),
            scenes: Scenes::empty(),
            reloading: false,
            loaded: false,
            show_legend: ShowLegend::empty(),
        }
    }

    /// The index of the species named `key`.
    fn config_index(&self, key: &String) -> (r: Option<usize>)
        ensures
            match r {
                Some(i) => i as int == key_index(self.fish_configs@, key@, 0),
                None => key_index(self.fish_configs@, key@, 0) < 0,
            },
    {
        let mut i: usize = 0;
        while i < self.fish_configs.len()
            invariant
                i <= self.fish_configs@.len(),
                key_index(self.fish_configs@, key@, 0) == key_index(
                    self.fish_configs@,
                    key@,
                    i as int,
                ),
            decreases self.fish_configs@.len() - i,
        {
            if self.fish_configs[i].0 == *key {
                return Some(i);
            }
            i = i + 1;
        }
        None
    }

    /// The shape of the picture named `name`, which the tank knows.
    fn texture_size(&self, name: &String) -> (r: TextureSize)
        requires
            texture_index(self.fish_textures@, name@, 0) >= 0,
        ensures
            r == self.fish_textures@[texture_index(self.fish_textures@, name@, 0)].size,
    {
        let mut i: usize = 0;
        while i < self.fish_textures.len()
            invariant
                i <= self.fish_textures@.len(),
                texture_index(self.fish_textures@, name@, 0) >= 0,
                texture_index(self.fish_textures@, name@, 0) == texture_index(
                    self.fish_textures@,
                    name@,
                    i as int,
                ),
            decreases self.fish_textures@.len() - i,
        {
            if self.fish_textures[i].name == *name {
                return self.fish_textures[i].size;
            }
            i = i + 1;
        }
        TextureSize { width: 1, height: 1 }
    }

    /// A fish for `fish_data`, or an error when its species is unknown.
    fn create_fish(&self, fish_data: &FishData) -> (r: Result<Fish, &'static str>)
        requires
            self.wf(),
            fish_data.wf(),
        ensures
            r.is_err() <==> !knows_species(self.fish_configs@, fish_data.fish@),
            r matches Err(e) ==> e@ == "FishConfig missing"@,
            r matches Ok(fish) ==> made_from(
                fish,
                *fish_data,
                self.species(fish_data.fish@),
                self.shape(self.species(fish_data.fish@)),
            ),
    {
        let index = match self.config_index(&fish_data.fish) {
            Some(index) => index,
            None => {
                return Err("FishConfig missing");
            },
        };
        proof {
            lemma_key_index_range(self.fish_configs@, fish_data.fish@, 0);
        }
        let fish_config = &self.fish_configs[index].1;
        assert(self.fish_configs@[index as int].1.wf());
        proof {
            lemma_texture_index_range(self.fish_textures@, fish_config.texture@, 0);
        }
        let size = fish_config.randomized_size();
        let speed = fish_config.randomized_speed();
        let fish_size = Self::scale(size, fish_data.size);
        let max_speed = Vec2 {
            x: Self::scale(speed.x, fish_data.speed),
            y: Self::scale(speed.y, fish_data.speed),
        };
        let base_bubbles = fish_config.bubbles as u64;
        assert(base_bubbles * fish_data.bubbles / 1000 <= 100_000_000) by (nonlinear_arith)
            requires
                base_bubbles <= 1_000_000,
                fish_data.bubbles <= 100_000,
        ;
        let bubbles = base_bubbles * fish_data.bubbles / 1000;
        let texture_size = self.texture_size(&fish_config.texture);
        let fish = Fish::new(
            fish_size,
            max_speed,
            fish_config.collision_aversion,
            fish_config.area,
            fish_config.movement,
            fish_config.texture.clone(),
            texture_size,
            bubbles as u32,
        );
        assert(fresh_fish(
            fish,
            *fish_config,
            texture_size,
            scaled(size as int, fish_data.size as int),
            Vec2 {
                x: scaled(speed.x as int, fish_data.speed as int) as i64,
                y: scaled(speed.y as int, fish_data.speed as int) as i64,
            },
            scaled(fish_config.bubbles as int, fish_data.bubbles as int),
        ));
        Ok(fish)
    }

    /// Takes the settings, the first feed and the pictures' sizes, and
    /// populates the tank; the scenes are the configured ones, or a single
    /// scene of the configured feed and display time.
    pub fn add_resources(&mut self, resources: Resources)
        requires
            old(self).wf(),
            species_ok(resources.config.fishes@, resources.fish_textures@),
            school_ok(resources.input_data.school@),
            resources.config.scenes matches Some(scenes) ==> scenes@.len() > 0,
        ensures
            final(self).wf(),
            final(self).loaded,
            final(self).reloading == old(self).reloading,
            final(self).fish_configs == resources.config.fishes,
            final(self).school == resources.input_data.school,
            final(self).fish_textures == resources.fish_textures,
            final(self).scenes.current_scene == 0,
            final(self).scenes.time == 0,
            final(self).scenes.switching,
            match resources.config.scenes {
                Some(scenes) => final(self).scenes.scenes@ == scenes@,
                None => {
                    let only = final(self).scenes.scenes@[0];
                    &&& final(self).scenes.scenes@.len() == 1
                    &&& only.input_data_path == resources.config.input_data_path
                    &&& only.display_time == resources.config.display_time
                    &&& only.legend.is_none()
                },
            },
            final(self).show_legend == ShowLegend::new_spec(resources.input_data.legend),
            final(self).fishes@.subrange(0, old(self).fishes@.len() as int) == old(self).fishes@,
            final(self).populated_by(
                final(self).fishes@.subrange(
                    old(self).fishes@.len() as int,
                    final(self).fishes@.len() as int,
                ),
            ),
    {
        let Resources { config, input_data, fish_textures } = resources;
        let Config { input_data_path, display_time, backgrounds: _, scenes, fishes } = config;
        let InputData { legend, school } = input_data;
        self.fish_configs = fishes;
        self.school = school;
        self.fish_textures = fish_textures;
        let scenes = match scenes {
            Some(scenes) => scenes,
            None => vec![SceneConfig::new(input_data_path, display_time)],
        };
        self.scenes = Scenes::new(scenes);
        self.show_legend = ShowLegend::new(legend);
        let ghost mid = *self;
        self.populate();
        assert(mid.populated_by(
            self.fishes@.subrange(mid.fishes@.len() as int, self.fishes@.len() as int),
        ));
        self.loaded = true;
    }

    /// Takes a new species table and rebuilds the fish from the feed.
    pub fn update_config(&mut self, config: Config)
        requires
            old(self).wf(),
            species_ok(config.fishes@, old(self).fish_textures@),
        ensures
            Self::repopulated(FishTank { fish_configs: config.fishes, ..*old(self) }, *final(self)),
            final(self).wf(),
    {
        self.fish_configs = config.fishes;
        self.repopulate();
    }

    /// Takes a feed that has arrived: its records replace the current ones,
    /// its legend becomes the feed's own, and the fish are rebuilt.
    pub fn update_data(&mut self, input_data: InputData)
        requires
            old(self).wf(),
            school_ok(input_data.school@),
        ensures
            Self::repopulated(
                FishTank {
                    school: input_data.school,
                    show_legend: ShowLegend::new_spec(input_data.legend),
                    reloading: false,
                    ..*old(self)
                },
                *final(self),
            ),
            final(self).wf(),
    {
        let InputData { legend, school } = input_data;
        self.school = school;
        self.show_legend = ShowLegend::new(legend);
        self.reloading = false;
        self.repopulate();
    }

    /// Asks for the current scene's feed, when it names one: the path to
    /// load is returned, and the tank waits for `update_data`.
    pub fn reload_data(&mut self) -> (r: Option<String>)
        requires
            old(self).wf(),
        ensures
            r == old(self).scenes.current().input_data_path,
            *final(self) == (FishTank {
                reloading: old(self).reloading || r.is_some(),
                ..*old(self)
            }),
    {
        let path = self.scenes.input_data_path();
        if path.is_some() {
            self.reloading = true;
        }
        path
    }

    /// Moves on to the next scene and asks for its feed.
    pub fn next_scene(&mut self) -> (r: Option<String>)
        requires
            old(self).wf(),
        ensures
            *final(self) == old(self).after_next_scene(),
            r == old(self).scenes.advanced().current().input_data_path,
            final(self).wf(),
    {
        if self.show_legend.showing {
            self.show_legend.hide_legend();
        }
        self.scenes.next();
        self.reload_data()
    }

    /// Turns scene cycling on or off, and tells whether it is now on.
    pub fn toggle_switching_scenes(&mut self) -> (r: bool)
        requires
            old(self).wf(),
        ensures
            r == !old(self).scenes.switching,
            *final(self) == (FishTank {
                scenes: Scenes { switching: r, time: 0, ..old(self).scenes },
                ..*old(self)
            }),
    {
        self.scenes.toggle_switching()
    }

    /// Shows or hides the legend: the feed's own, else the scene's.
    pub fn toggle_legend(&mut self)
        requires
            old(self).wf(),
        ensures
            *final(self) == (FishTank { show_legend: final(self).show_legend, ..*old(self) }),
            final(self).show_legend.showing == !old(self).show_legend.showing,
            final(self).show_legend.default_legend == old(self).show_legend.default_legend,
            final(self).show_legend.showing ==> legend_view(final(self).show_legend.current_legend)
                == if old(self).show_legend.default_legend.is_some() {
                legend_view(old(self).show_legend.default_legend)
            } else {
                legend_view(old(self).scenes.current().legend)
            },
            !final(self).show_legend.showing ==> final(self).show_legend.current_legend == old(
                self,
            ).show_legend.current_legend,
    {
        let legend = self.scenes.legend();
        self.show_legend.toggle_show(legend);
    }

    /// One frame of `delta` milliseconds: the scene clock runs (and may ask
    /// for a feed, whose path is returned), then every fish ticks against
    /// the footprints all fish had before any of them moved.
    pub fn tick(&mut self, delta: u32) -> (r: Option<String>)
        requires
            old(self).wf(),
            delta <= MAX_DELTA,
        ensures
            r == old(self).scene_clock_request(delta),
            *final(self) == (FishTank {
                fishes: final(self).fishes,
                ..old(self).after_scene_clock(delta)
            }),
            final(self).fishes@.len() == old(self).fishes@.len(),
            forall|i: int|
                0 <= i < old(self).fishes@.len() ==> ticked_among(
                    old(self).fishes@[i],
                    #[trigger] final(self).fishes@[i],
                    delta as int,
                    footprints(old(self).fishes@),
                ),
            final(self).wf(),
    {
        let request = self.tick_data_reloading(delta);
        let collision_boxes = self.collision_boxes();
        let ghost before = self.fishes@;
        let ghost rest = *self;
        let mut i: usize = 0;
        while i < self.fishes.len()
            invariant
                delta <= MAX_DELTA,
                rest.wf(),
                *self == (FishTank { fishes: self.fishes, ..rest }),
                self.fishes@.len() == before.len(),
                i <= before.len(),
                collision_boxes@ == footprints(before),
                forall|k: int| 0 <= k < collision_boxes@.len() ==> #[trigger] collision_boxes@[k].bounded(),
                forall|k: int| 0 <= k < before.len() ==> (#[trigger] before[k]).wf(),
                forall|k: int| i <= k < before.len() ==> #[trigger] self.fishes@[k] == before[k],
                forall|k: int|
                    0 <= k < i ==> ticked_among(
                        before[k],
                        #[trigger] self.fishes@[k],
                        delta as int,
                        collision_boxes@,
                    ),
                forall|k: int| 0 <= k < i ==> (#[trigger] self.fishes@[k]).wf(),
            decreases before.len() - i,
        {
            self.fishes[i].tick(delta, collision_boxes.as_slice());
            i = i + 1;
        }
        request
    }

    /// The footprints of the fish, in order.
    fn collision_boxes(&self) -> (r: Vec<Rect>)
        requires
            self.wf(),
        ensures
            r@ == footprints(self.fishes@),
            forall|k: int| 0 <= k < r@.len() ==> #[trigger] r@[k].bounded(),
    {
        let mut boxes: Vec<Rect> = Vec::new();
        let mut i: usize = 0;
        while i < self.fishes.len()
            invariant
                self.wf(),
                i <= self.fishes@.len(),
                boxes@ == footprints(self.fishes@.subrange(0, i as int)),
                forall|k: int| 0 <= k < boxes@.len() ==> #[trigger] boxes@[k].bounded(),
            decreases self.fishes@.len() - i,
        {
            assert(self.fishes@[i as int].wf());
            boxes.push(self.fishes[i].collision_box());
            assert(footprints(self.fishes@.subrange(0, i + 1)) =~= footprints(
                self.fishes@.subrange(0, i as int),
            ).push(self.fishes@[i as int].footprint()));
            i = i + 1;
        }
        assert(self.fishes@.subrange(0, self.fishes@.len() as int) =~= self.fishes@);
        boxes
    }

    fn tick_data_reloading(&mut self, delta: u32) -> (r: Option<String>)
        requires
            old(self).wf(),
        ensures
            r == old(self).scene_clock_request(delta),
            *final(self) == old(self).after_scene_clock(delta),
            final(self).wf(),
    {
        if self.reloading {
            return None;
        }
        if !self.scenes.is_switching() {
            return None;
        }
        self.scenes.tick(delta);
        if self.scenes.needs_reloading() {
            self.next_scene()
        } else {
            None
        }
    }

    /// Adds a fish of a random species, with a fresh random width, top
    /// speed and bubble count.
    pub fn add_fish(&mut self)
        requires
            old(self).wf(),
            old(self).fish_configs@.len() > 0,
        ensures
            *final(self) == (FishTank { fishes: final(self).fishes, ..*old(self) }),
            final(self).fishes@.len() == old(self).fishes@.len() + 1,
            final(self).fishes@.drop_last() == old(self).fishes@,
            exists|i: int|
                0 <= i < old(self).fish_configs@.len() && made_for_species(
                    final(self).fishes@.last(),
                    old(self).fish_configs@[i].1,
                    old(self).shape(old(self).fish_configs@[i].1),
                ),
            final(self).wf(),
    {
        let fish = self.random_fish();
        self.fishes.push(fish);
        assert(self.fishes@.drop_last() =~= old(self).fishes@);
    }

    /// Takes the last fish out; nothing happens when there is none.
    pub fn remove_fish(&mut self)
        requires
            old(self).wf(),
        ensures
            *final(self) == (FishTank { fishes: final(self).fishes, ..*old(self) }),
            final(self).fishes@ == if old(self).fishes@.len() == 0 {
                old(self).fishes@
            } else {
                old(self).fishes@.drop_last()
            },
            final(self).wf(),
    {
        if self.fishes.len() > 0 {
            self.fishes.pop();
        }
    }

    fn random_fish_config(&self) -> (r: &FishConfig)
        requires
            self.wf(),
            self.fish_configs@.len() > 0,
        ensures
            exists|i: int| 0 <= i < self.fish_configs@.len() && *r == self.fish_configs@[i].1,
    {
        let entry = choose_item(self.fish_configs.as_slice()).unwrap();
        &entry.1
    }

    fn random_fish(&self) -> (r: Fish)
        requires
            self.wf(),
            self.fish_configs@.len() > 0,
        ensures
            exists|i: int|
                0 <= i < self.fish_configs@.len() && made_for_species(
                    r,
                    self.fish_configs@[i].1,
                    self.shape(self.fish_configs@[i].1),
                ),
    {
        let fish_config = self.random_fish_config();
        let ghost index = choose|i: int|
            0 <= i < self.fish_configs@.len() && *fish_config == self.fish_configs@[i].1;
        assert(self.fish_configs@[index].1.wf());
        proof {
            lemma_texture_index_range(self.fish_textures@, fish_config.texture@, 0);
        }
        let size = fish_config.randomized_size();
        let speed = fish_config.randomized_speed();
        let bubbles = fish_config.randomized_bubble_amount();
        let texture_size = self.texture_size(&fish_config.texture);
        let fish = Fish::new(
            size,
            speed,
            fish_config.collision_aversion,
            fish_config.area,
            fish_config.movement,
            fish_config.texture.clone(),
            texture_size,
            bubbles,
        );
        assert(fresh_fish(fish, *fish_config, texture_size, size as int, speed, bubbles as int));
        fish
    }

    /// Rebuilds the fish from the current feed: the old ones go, and each
    /// record whose species is known gets a fish.
    pub fn repopulate(&mut self)
        requires
            old(self).wf(),
        ensures
            Self::repopulated(*old(self), *final(self)),
            final(self).wf(),
    {
        self.reset();
        self.populate();
        assert(self.fishes@.subrange(0, self.fishes@.len() as int) =~= self.fishes@);
    }

    /// Adds a fish for each record of the feed whose species is known,
    /// after the fish already there.
    fn populate(&mut self)
        requires
            old(self).wf(),
        ensures
            *final(self) == (FishTank { fishes: final(self).fishes, ..*old(self) }),
            final(self).fishes@.subrange(0, old(self).fishes@.len() as int) == old(self).fishes@,
            old(self).populated_by(
                final(self).fishes@.subrange(
                    old(self).fishes@.len() as int,
                    final(self).fishes@.len() as int,
                ),
            ),
            final(self).wf(),
    {
        let mut fishes: Vec<Fish> = Vec::new();
        let mut i: usize = 0;
        while i < self.school.len()
            invariant
                self.wf(),
                i <= self.school@.len(),
                fishes@.len() == resolvable(
                    self.school@.subrange(0, i as int),
                    self.fish_configs@,
                ).len(),
                forall|k: int|
                    0 <= k < fishes@.len() ==> {
                        let record = resolvable(
                            self.school@.subrange(0, i as int),
                            self.fish_configs@,
                        )[k];
                        made_from(
                            #[trigger] fishes@[k],
                            record,
                            self.species(record.fish@),
                            self.shape(self.species(record.fish@)),
                        )
                    },
            decreases self.school@.len() - i,
        {
            let ghost before = fishes@;
            assert(self.school@[i as int].wf());
            match self.create_fish(&self.school[i]) {
                Ok(fish) => {
                    fishes.push(fish);
                },
                Err(_) => {},
            }
            assert(self.school@.subrange(0, i + 1).drop_last() =~= self.school@.subrange(
                0,
                i as int,
            ));
            i = i + 1;
        }
        assert(self.school@.subrange(0, self.school@.len() as int) =~= self.school@);
        let ghost added = fishes@;
        let ghost start = self.fishes@;
        self.fishes.append(&mut fishes);
        assert(self.fishes@.subrange(0, start.len() as int) =~= start);
        assert(self.fishes@.subrange(start.len() as int, self.fishes@.len() as int) =~= added);
        assert forall|k: int| 0 <= k < self.fishes@.len() implies (#[trigger] self.fishes@[k]).wf() by {
            if k >= start.len() {
                assert(self.fishes@[k] == added[k - start.len()]);
            }
        }
    }

    fn reset(&mut self)
        requires
            old(self).wf(),
        ensures
            *final(self) == (FishTank { fishes: final(self).fishes, ..*old(self) }),
            final(self).fishes@.len() == 0,
            final(self).wf(),
    {
        self.fishes.clear();
    }

    /// `value` scaled by `factor` thousandths.
    fn scale(value: i64, factor: u64) -> (r: i64)
        requires
            0 <= value <= 1_000_000_000,
            factor <= crate::fish_data::MAX_FACTOR,
        ensures
            r == scaled(value as int, factor as int),
            0 <= r <= value * 100,
    {
        assert(0 <= value * factor <= 1_000_000_000 * 100_000) by (nonlinear_arith)
            requires
                0 <= value <= 1_000_000_000,
                0 <= factor <= 100_000,
        ;
        assert((value * factor) / 1000 <= value * 100) by (nonlinear_arith)
            requires
                0 <= value,
                0 <= factor <= 100_000,
        ;
        value * (factor as i64) / 1000
    }
}

/// Repopulating twice in a row, with the feed and the species table left as
/// they are, gives the same number of fish both times: one per record whose
/// species the table knows, with no fish of before left over.
pub proof fn lemma_repopulate_twice_same_count(first: FishTank, second: FishTank, third: FishTank)
    requires
        first.wf(),
        FishTank::repopulated(first, second),
        FishTank::repopulated(second, third),
    ensures
        second.fishes@.len() == first.resolvable_records().len(),
        third.fishes@.len() == second.fishes@.len(),
{
}

} // verus!
