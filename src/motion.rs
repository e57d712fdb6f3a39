use crate::collision::Collision;
use crate::geometry::{abs, min, Rect, Vec2, MAX_COORD};
use crate::movement::{CHANCE_IDLE_END, CHANCE_IDLE_START};
use crate::random::random_below;
use vstd::prelude::*;

verus! {

/// Largest tilt, in thousandths of a radian.
pub const MAX_ROTATION: i64 = 300;

/// Chance per tick that the horizontal acceleration turns, in thousandths of
/// a percent.
pub const DIRECTION_CHANGE_CHANCE_X: u64 = 2_500;

/// Chance per tick that the vertical acceleration turns, in thousandths of a
/// percent.
pub const DIRECTION_CHANGE_CHANCE_Y: u64 = 5_000;

/// A percent roll lies in `[0, PERCENT_STEPS)`: thousandths of a percent.
pub const PERCENT_STEPS: u64 = 100_000;

/// Largest top speed on an axis, in thousandths of a unit per second.
pub const MAX_SPEED: i64 = 1_000_000_000_000;

/// Largest magnitude of an acceleration step.
pub const MAX_ACCEL: i64 = 1_000_000_000;

/// Longest tick, in milliseconds.
pub const MAX_DELTA: u32 = 100_000;

/// Where a fish is, how fast it swims, and how it is turned.
///
/// `speed` is in thousandths of a unit per second and `position` in
/// millionths of a unit, so `speed * delta` with `delta` in milliseconds is a
/// displacement.
#[derive(Clone, Copy, Debug, PartialEq, Eq, Structural)]
pub struct Motion {
    pub position: Vec2,
    pub speed: Vec2,
    pub max_speed: Vec2,
    pub acceleration: Vec2,
    pub rotation: i64,
    pub idle: bool,
}

pub open spec fn opposite_signs(a: int, b: int) -> bool {
    (a < 0 && b > 0) || (a > 0 && b < 0)
}

/// The tilt for a speed: the vertical share of the top vertical speed, at
/// most one, times `MAX_ROTATION`; negative when the fish swims up-right or
/// down-left; zero when the top vertical speed is zero.
pub open spec fn rotation_for(speed: Vec2, max_speed: Vec2) -> int {
    let magnitude = if max_speed.y <= 0 {
        0
    } else {
        min(abs(speed.y as int) * MAX_ROTATION / (max_speed.y as int), MAX_ROTATION as int)
    };
    if opposite_signs(speed.x as int, speed.y as int) {
        -magnitude
    } else {
        magnitude
    }
}

/// One axis of `accelerate`: the step is added while the speed has not yet
/// reached the top speed on the side the step pushes to.
pub open spec fn accelerated_axis(speed: int, max_speed: int, acceleration: int) -> int {
    let s1 = if speed < max_speed && acceleration > 0 {
        speed + acceleration
    } else {
        speed
    };
    if s1 > -max_speed && acceleration <= 0 {
        s1 + acceleration
    } else {
        s1
    }
}

/// One axis reaching or passing an edge of `[lo, hi]`.
pub open spec fn at_edge(p: int, lo: int, hi: int) -> bool {
    p <= lo || p >= hi
}

pub open spec fn negated_if(v: int, cond: bool) -> int {
    if cond {
        -v
    } else {
        v
    }
}

impl Motion {
    pub open spec fn wf(self) -> bool {
        &&& 0 <= self.max_speed.x <= MAX_SPEED
        &&& 0 <= self.max_speed.y <= MAX_SPEED
        &&& abs(self.acceleration.x as int) <= MAX_ACCEL
        &&& abs(self.acceleration.y as int) <= MAX_ACCEL
        &&& abs(self.speed.x as int) <= self.max_speed.x + abs(self.acceleration.x as int)
        &&& abs(self.speed.y as int) <= self.max_speed.y + abs(self.acceleration.y as int)
        &&& abs(self.position.x as int) <= 2 * MAX_COORD
        &&& abs(self.position.y as int) <= 2 * MAX_COORD
    }

    /// Where the position goes in `delta` milliseconds, before clamping.
    pub open spec fn advanced(self, delta: int) -> Vec2 {
        if self.idle {
            self.position
        } else {
            Vec2 {
                x: (self.position.x + self.speed.x * delta) as i64,
                y: (self.position.y + self.speed.y * delta) as i64,
            }
        }
    }

    /// `self` after a tick of `delta` milliseconds, kept on `bounding_box`.
    pub open spec fn moved(self, delta: int, bounding_box: Rect) -> Motion {
        Motion { position: bounding_box.clamp_spec(self.advanced(delta)), ..self }
    }

    pub open spec fn rotated(self) -> Motion {
        Motion { rotation: rotation_for(self.speed, self.max_speed) as i64, ..self }
    }

    pub open spec fn accelerated(self) -> Motion {
        Motion {
            speed: Vec2 {
                x: accelerated_axis(
                    self.speed.x as int,
                    self.max_speed.x as int,
                    self.acceleration.x as int,
                ) as i64,
                y: accelerated_axis(
                    self.speed.y as int,
                    self.max_speed.y as int,
                    self.acceleration.y as int,
                ) as i64,
            },
            ..self
        }
    }

    /// The idle flag after a percent roll: it flips when the roll is under
    /// the chance of leaving (when idle) or of entering (when not).
    pub open spec fn idled(self, roll: int) -> Motion {
        let chance = if self.idle {
            CHANCE_IDLE_END
        } else {
            CHANCE_IDLE_START
        };
        Motion { idle: if roll < chance {
            !self.idle
        } else {
            self.idle
        }, ..self }
    }

    pub open spec fn mirrored_vertically(self, b: Rect) -> Motion {
        Motion {
            speed: Vec2 {
                x: self.speed.x,
                y: negated_if(
                    self.speed.y as int,
                    at_edge(self.position.y as int, b.y as int, b.bottom_spec()),
                ) as i64,
            },
            ..self
        }
    }

    pub open spec fn mirrored(self, b: Rect) -> Motion {
        Motion {
            speed: Vec2 {
                x: negated_if(
                    self.speed.x as int,
                    at_edge(self.position.x as int, b.x as int, b.right_spec()),
                ) as i64,
                y: self.mirrored_vertically(b).speed.y,
            },
            ..self
        }
    }

    /// Each acceleration axis turns when its percent roll is under its
    /// chance times `multiplier`.
    pub open spec fn jittered(self, multiplier: int, roll_x: int, roll_y: int) -> Motion {
        Motion {
            acceleration: Vec2 {
                x: negated_if(
                    self.acceleration.x as int,
                    roll_x < DIRECTION_CHANGE_CHANCE_X * multiplier,
                ) as i64,
                y: negated_if(
                    self.acceleration.y as int,
                    roll_y < DIRECTION_CHANGE_CHANCE_Y * multiplier,
                ) as i64,
            },
            ..self
        }
    }

    /// A push to the left turns a fish that swims left, a push to the right
    /// one that swims right.
    pub open spec fn collided(self, collision: Collision) -> Motion {
        let turn = match collision {
            Collision::Left => self.speed.x < 0,
            Collision::Right => self.speed.x > 0,
            Collision::No => false,
        };
        Motion { speed: Vec2 { x: negated_if(self.speed.x as int, turn) as i64, y: self.speed.y }, ..self }
    }

    /// The motion after `delta` milliseconds of `motion`, kept on
    /// `bounding_box`; `self` is left as it is.
    pub fn move_position(&mut self, delta: u32, motion: Motion, bounding_box: Rect) -> (r: Motion)
        requires
            motion.wf(),
            bounding_box.bounded(),
            delta <= MAX_DELTA,
        ensures
            *final(self) == *old(self),
            r == motion.moved(delta as int, bounding_box),
            r.wf(),
            bounding_box.valid() ==> bounding_box.contains_spec(r.position),
    {
        let d = delta as i64;
        let target = if motion.idle {
            motion.position
        } else {
            let sx = motion.speed.x;
            let sy = motion.speed.y;
            assert(abs(sx * d) <= 2 * MAX_SPEED * MAX_DELTA) by (nonlinear_arith)
                requires
                    abs(sx as int) <= 2 * MAX_SPEED,
                    0 <= d <= MAX_DELTA,
            ;
            assert(abs(sy * d) <= 2 * MAX_SPEED * MAX_DELTA) by (nonlinear_arith)
                requires
                    abs(sy as int) <= 2 * MAX_SPEED,
                    0 <= d <= MAX_DELTA,
            ;
            Vec2 { x: motion.position.x + sx * d, y: motion.position.y + sy * d }
        };
        let position = self.clamp(target, bounding_box);
        Motion {
            position,
            speed: motion.speed,
            max_speed: motion.max_speed,
            acceleration: motion.acceleration,
            rotation: motion.rotation,
            idle: motion.idle,
        }
    }

    /// Tilts the fish along its swimming direction.
    pub fn rotate(&mut self)
        requires
            old(self).wf(),
        ensures
            *final(self) == old(self).rotated(),
            final(self).wf(),
            abs(final(self).rotation as int) <= MAX_ROTATION,
    {
        let sx = self.speed.x;
        let sy = self.speed.y;
        let magnitude: i64 = if self.max_speed.y <= 0 {
            0
        } else {
            let a: u64 = if sy < 0 {
                (-sy) as u64
            } else {
                sy as u64
            };
            let q: u64 = a * 300 / (self.max_speed.y as u64);
            if q > 300 {
                300
            } else {
                q as i64
            }
        };
        self.rotation = if (sx < 0 && sy > 0) || (sx > 0 && sy < 0) {
            -magnitude
        } else {
            magnitude
        };
    }

    /// Adds the acceleration step to each axis whose speed has not reached
    /// the top speed on the side the step pushes to.
    pub fn accelerate(&mut self)
        requires
            old(self).wf(),
        ensures
            *final(self) == old(self).accelerated(),
            final(self).wf(),
    {
        if self.speed.x < self.max_speed.x && self.acceleration.x > 0 {
            self.speed.x = self.speed.x + self.acceleration.x;
        }
        if self.speed.x > -self.max_speed.x && self.acceleration.x <= 0 {
            self.speed.x = self.speed.x + self.acceleration.x;
        }
        if self.speed.y < self.max_speed.y && self.acceleration.y > 0 {
            self.speed.y = self.speed.y + self.acceleration.y;
        }
        if self.speed.y > -self.max_speed.y && self.acceleration.y <= 0 {
            self.speed.y = self.speed.y + self.acceleration.y;
        }
    }

    /// Enters or leaves idling by the percent roll `roll`.
    pub fn idle_by_roll(&mut self, roll: u64)
        ensures
            *final(self) == old(self).idled(roll as int),
    {
        let chance = if self.idle {
            CHANCE_IDLE_END
        } else {
            CHANCE_IDLE_START
        };
        if roll < chance {
            self.idle = !self.idle;
        }
    }

    /// Enters idling with a small chance, or leaves it with a large one.
    pub fn random_idling(&mut self)
        ensures
            exists|roll: int| 0 <= roll < PERCENT_STEPS && *final(self) == old(self).idled(roll),
    {
        let roll = Self::random_percent();
        self.idle_by_roll(roll);
    }

    /// Turns each axis of the speed whose position has reached or passed an
    /// edge of `bounding_box`.
    pub fn change_direction_by_bounding_box(&mut self, bounding_box: Rect)
        requires
            old(self).wf(),
            bounding_box.bounded(),
        ensures
            *final(self) == old(self).mirrored(bounding_box),
            final(self).wf(),
    {
        if self.position.x <= bounding_box.x || self.position.x >= bounding_box.right() {
            self.speed.x = -self.speed.x;
        }
        if self.position.y <= bounding_box.y || self.position.y >= bounding_box.bottom() {
            self.speed.y = -self.speed.y;
        }
    }

    /// Turns the vertical speed when the position has reached or passed the
    /// top or the bottom of `bounding_box`.
    pub fn change_direction_vertically(&mut self, bounding_box: Rect)
        requires
            old(self).wf(),
            bounding_box.bounded(),
        ensures
            *final(self) == old(self).mirrored_vertically(bounding_box),
            final(self).wf(),
    {
        if self.position.y <= bounding_box.y || self.position.y >= bounding_box.bottom() {
            self.speed.y = -self.speed.y;
        }
    }

    /// Turns each acceleration axis whose percent roll is under its chance
    /// times `multiplier`.
    pub fn change_acceleration_by_rolls(&mut self, multiplier: u64, roll_x: u64, roll_y: u64)
        requires
            old(self).wf(),
            multiplier <= 1000,
        ensures
            *final(self) == old(self).jittered(multiplier as int, roll_x as int, roll_y as int),
            final(self).wf(),
    {
        if roll_x < DIRECTION_CHANGE_CHANCE_X * multiplier {
            self.acceleration.x = -self.acceleration.x;
        }
        if roll_y < DIRECTION_CHANGE_CHANCE_Y * multiplier {
            self.acceleration.y = -self.acceleration.y;
        }
    }

    /// Turns each acceleration axis at random; a larger `multiplier` turns
    /// more often.
    pub fn change_acceleration_randomly(&mut self, multiplier: u64)
        requires
            old(self).wf(),
            multiplier <= 1000,
        ensures
            exists|rx: int, ry: int|
                0 <= rx < PERCENT_STEPS && 0 <= ry < PERCENT_STEPS && *final(self) == old(
                    self,
                ).jittered(multiplier as int, rx, ry),
            final(self).wf(),
    {
        let roll_x = Self::random_percent();
        let roll_y = Self::random_percent();
        self.change_acceleration_by_rolls(multiplier, roll_x, roll_y);
    }

    /// Heads away from a neighbour: see `collided`.
    pub fn collision(&mut self, collision: Collision)
        requires
            old(self).wf(),
        ensures
            *final(self) == old(self).collided(collision),
            final(self).wf(),
    {
        match collision {
            Collision::Left => {
                if self.speed.x < 0 {
                    self.speed.x = -self.speed.x;
                }
            },
            Collision::Right => {
                if self.speed.x > 0 {
                    self.speed.x = -self.speed.x;
                }
            },
            Collision::No => {},
        }
    }

    /// `position` moved onto `bounding_box`, axis by axis.
    pub fn clamp(&self, position: Vec2, bounding_box: Rect) -> (r: Vec2)
        requires
            bounding_box.bounded(),
            abs(position.x as int) <= crate::geometry::MAX_POINT,
            abs(position.y as int) <= crate::geometry::MAX_POINT,
        ensures
            r == bounding_box.clamp_spec(position),
            bounding_box.valid() ==> bounding_box.contains_spec(r),
    {
        bounding_box.clamp(position)
    }

    fn random_percent() -> (r: u64)
        ensures
            r < PERCENT_STEPS,
    {
        random_below(PERCENT_STEPS)
    }
}

/// `motion` after one advance per entry of `deltas` (in milliseconds), each
/// kept on `bounding_box`.
pub open spec fn advanced_through(motion: Motion, deltas: Seq<int>, bounding_box: Rect) -> Motion
    decreases deltas.len(),
{
    if deltas.len() == 0 {
        motion
    } else {
        advanced_through(motion, deltas.drop_last(), bounding_box).moved(
            deltas.last(),
            bounding_box,
        )
    }
}

/// However many advances are made on a valid bounding box, a position that
/// starts inside it stays inside it.
pub proof fn lemma_advance_stays_in_box(motion: Motion, deltas: Seq<int>, bounding_box: Rect)
    requires
        bounding_box.valid(),
        bounding_box.contains_spec(motion.position),
    ensures
        bounding_box.contains_spec(advanced_through(motion, deltas, bounding_box).position),
    decreases deltas.len(),
{
    if deltas.len() > 0 {
        lemma_advance_stays_in_box(motion, deltas.drop_last(), bounding_box);
    }
}

} // verus!
