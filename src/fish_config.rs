use crate::fish::{area_bounded, MAX_AREA};
use crate::geometry::{Rect, Vec2};
use crate::movement::Movement;
use crate::random::random_below;
use vstd::prelude::*;

verus! {

/// A fraction lies in `[0, FRACTION_STEPS]`: thousandths.
pub const FRACTION_STEPS: u64 = 1000;

/// Largest base width of a species.
pub const MAX_BASE_SIZE: i64 = 100_000_000;

/// Largest base speed of a species on an axis.
pub const MAX_BASE_SPEED: i64 = 1_000_000_000;

/// Largest base bubble count of a species.
pub const MAX_BUBBLES: u32 = 1_000_000;

/// Bubble counts drawn for a fish added by hand lie below this.
pub const RANDOM_BUBBLES: u64 = 25;

/// The template of a species, which feed records scale.
///
/// `size` is a width in millionths of a unit, `speed` a top speed in
/// thousandths of a unit per second; the randomness fields are the largest
/// share, in thousandths, that a draw takes off those; `collision_aversion`
/// is in thousandths.
#[derive(Clone, Debug)]
pub struct FishConfig {
    pub texture: String,
    pub size: i64,
    pub size_randomness: u64,
    pub movement: Movement,
    pub bubbles: u32,
    pub speed: Vec2,
    pub speed_randomness: Vec2,
    pub collision_aversion: u64,
    pub area: Rect,
}

/// `value` less the share `draw` thousandths of it.
pub open spec fn reduced_by(value: int, draw: int) -> int {
    value - value * draw / FRACTION_STEPS as int
}

/// A draw below `randomness`, or zero when `randomness` is zero.
pub open spec fn draw_below(draw: int, randomness: int) -> bool {
    0 <= draw && (draw < randomness || draw == 0)
}

impl FishConfig {
    pub open spec fn wf(self) -> bool {
        &&& 0 < self.size <= MAX_BASE_SIZE
        &&& self.size_randomness < FRACTION_STEPS
        &&& self.bubbles <= MAX_BUBBLES
        &&& 0 <= self.speed.x <= MAX_BASE_SPEED
        &&& 0 <= self.speed.y <= MAX_BASE_SPEED
        &&& 0 <= self.speed_randomness.x < FRACTION_STEPS
        &&& 0 <= self.speed_randomness.y < FRACTION_STEPS
        &&& self.collision_aversion <= FRACTION_STEPS
        &&& area_bounded(self.area)
    }

    /// The width drawn with `draw`.
    pub open spec fn size_by_draw(self, draw: int) -> int {
        reduced_by(self.size as int, draw)
    }

    /// The top speed drawn with `draw_x` and `draw_y`.
    pub open spec fn speed_by_draws(self, draw_x: int, draw_y: int) -> Vec2 {
        Vec2 {
            x: reduced_by(self.speed.x as int, draw_x) as i64,
            y: reduced_by(self.speed.y as int, draw_y) as i64,
        }
    }

    /// `size` is a width that `randomized_size` can return.
    pub open spec fn allows_size(self, size: int) -> bool {
        exists|d: int| draw_below(d, self.size_randomness as int) && size == self.size_by_draw(d)
    }

    /// `speed` is a top speed that `randomized_speed` can return.
    pub open spec fn allows_speed(self, speed: Vec2) -> bool {
        exists|dx: int, dy: int|
            draw_below(dx, self.speed_randomness.x as int) && draw_below(
                dy,
                self.speed_randomness.y as int,
            ) && speed == self.speed_by_draws(dx, dy)
    }

    /// The base width less a random share of at most `size_randomness`.
    pub fn randomized_size(&self) -> (r: i64)
        requires
            self.wf(),
        ensures
            self.allows_size(r as int),
            0 < r <= self.size,
    {
        let draw = random_below(self.size_randomness);
        assert(0 < self.size - self.size * draw / 1000) by (nonlinear_arith)
            requires
                0 < self.size,
                draw < 1000,
        ;
        assert(self.size * draw / 1000 >= 0) by (nonlinear_arith)
            requires
                0 < self.size,
                0 <= draw,
        ;
        let r = self.size - self.size * (draw as i64) / 1000;
        assert(draw_below(draw as int, self.size_randomness as int) && r == self.size_by_draw(
            draw as int,
        ));
        r
    }

    /// The base top speed less a random share of at most
    /// `speed_randomness`, axis by axis.
    pub fn randomized_speed(&self) -> (r: Vec2)
        requires
            self.wf(),
        ensures
            self.allows_speed(r),
            0 <= r.x <= self.speed.x,
            0 <= r.y <= self.speed.y,
    {
        let draw_x = random_below(self.speed_randomness.x as u64);
        let draw_y = random_below(self.speed_randomness.y as u64);
        let x = Self::reduce(self.speed.x, draw_x);
        let y = Self::reduce(self.speed.y, draw_y);
        let r = Vec2 { x, y };
        assert(draw_below(draw_x as int, self.speed_randomness.x as int) && draw_below(
            draw_y as int,
            self.speed_randomness.y as int,
        ) && r == self.speed_by_draws(draw_x as int, draw_y as int));
        r
    }

    /// A random bubble count below `RANDOM_BUBBLES`.
    pub fn randomized_bubble_amount(&self) -> (r: u32)
        ensures
            r < RANDOM_BUBBLES,
    {
        random_below(RANDOM_BUBBLES) as u32
    }

    fn reduce(value: i64, draw: u64) -> (r: i64)
        requires
            0 <= value <= MAX_BASE_SPEED,
            draw < FRACTION_STEPS,
        ensures
            r == reduced_by(value as int, draw as int),
            0 <= r <= value,
    {
        assert(0 <= value * draw / 1000 <= value) by (nonlinear_arith)
            requires
                0 <= value,
                0 <= draw < 1000,
        ;
        value - value * (draw as i64) / 1000
    }
}

impl Default for FishConfig {
    fn default() -> (r: FishConfig)
        ensures
            r.wf(),
            r.texture@ == "ferris.png"@,
            r.size == 7_000_000,
            r.size_randomness == 500,
            r.movement == Movement::Accelerating,
            r.bubbles == 25,
            r.speed == (Vec2 { x: 15_000, y: 7_000 }),
            r.speed_randomness == (Vec2 { x: 500, y: 500 }),
            r.collision_aversion == 900,
            r.area == (Rect { x: 5_000_000, y: 5_000_000, w: 90_000_000, h: 52_500_000 }),
    {
        FishConfig {
            texture: "ferris.png".to_owned(),
            size: 7_000_000,
            size_randomness: 500,
            movement: Movement::Accelerating,
            bubbles: 25,
            speed: Vec2 { x: 15_000, y: 7_000 },
            speed_randomness: Vec2 { x: 500, y: 500 },
            collision_aversion: 900,
            area: Rect { x: 5_000_000, y: 5_000_000, w: 90_000_000, h: 52_500_000 },
        }
    }
}

} // verus!
