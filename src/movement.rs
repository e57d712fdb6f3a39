use crate::collision::Collision;
use crate::geometry::{abs, Rect};
use crate::motion::{Motion, MAX_ROTATION, PERCENT_STEPS};
use crate::random::{choose_item, random_below};
use vstd::prelude::*;

verus! {

/// Chance per tick that a swimming fish starts idling, in thousandths of a
/// percent.
pub const CHANCE_IDLE_START: u64 = 5_000;

/// Chance per tick that an idling fish swims on, in thousandths of a percent.
pub const CHANCE_IDLE_END: u64 = 75_000;

/// How a fish moves: each kind is a fixed sequence of steps on its motion.
#[derive(Clone, Copy, Debug, PartialEq, Eq, Structural)]
pub enum Movement {
    SingleSpeed,
    Accelerating,
    AcceleratingEdgeIdling,
    Crab,
    Random,
}

impl Default for Movement {
    fn default() -> (r: Movement)
        ensures
            r == Movement::Accelerating,
    {
        Movement::Accelerating
    }
}

/// The percent rolls, each in `[0, PERCENT_STEPS)`, that one tick of a
/// movement may consult.
#[derive(Clone, Copy, Debug, PartialEq, Eq, Structural)]
pub struct MovementRolls {
    pub idle: u64,
    pub turn_x: u64,
    pub turn_y: u64,
}

impl MovementRolls {
    pub open spec fn in_range(self) -> bool {
        self.idle < PERCENT_STEPS && self.turn_x < PERCENT_STEPS && self.turn_y < PERCENT_STEPS
    }

    /// Three fresh percent rolls.
    pub fn draw() -> (r: MovementRolls)
        ensures
            r.in_range(),
    {
        MovementRolls {
            idle: random_below(PERCENT_STEPS),
            turn_x: random_below(PERCENT_STEPS),
            turn_y: random_below(PERCENT_STEPS),
        }
    }
}

impl Movement {
    /// One tick of this kind of movement on `motion`, as a sequence of
    /// steps; every kind starts by heading away from a neighbour.
    pub open spec fn ticked(
        self,
        motion: Motion,
        bounding_box: Rect,
        collision: Collision,
        rolls: MovementRolls,
    ) -> Motion {
        let m = motion.collided(collision);
        let (rx, ry) = (rolls.turn_x as int, rolls.turn_y as int);
        match self {
            Movement::SingleSpeed => m.mirrored(bounding_box).jittered(1, rx, ry).rotated(),
            Movement::Accelerating => m.accelerated().mirrored(bounding_box).jittered(
                1,
                rx,
                ry,
            ).rotated(),
            Movement::AcceleratingEdgeIdling => m.accelerated().mirrored_vertically(
                bounding_box,
            ).jittered(1, rx, ry).rotated(),
            Movement::Crab => m.accelerated().mirrored(bounding_box).jittered(5, rx, ry),
            Movement::Random => m.accelerated().idled(rolls.idle as int).mirrored(
                bounding_box,
            ).jittered(1, rx, ry).rotated(),
        }
    }

    /// One tick of this movement on `motion`, with the given rolls.
    pub fn tick_by_rolls(
        &self,
        motion: Motion,
        bounding_box: Rect,
        collision: Collision,
        rolls: MovementRolls,
    ) -> (r: Motion)
        requires
            motion.wf(),
            bounding_box.bounded(),
        ensures
            r == self.ticked(motion, bounding_box, collision, rolls),
            r.wf(),
            r.position == motion.position,
            r.max_speed == motion.max_speed,
            *self != Movement::Crab ==> abs(r.rotation as int) <= MAX_ROTATION,
            *self == Movement::Crab ==> r.rotation == motion.rotation,
    {
        match self {
            Movement::SingleSpeed => Self::tick_single_speed(motion, bounding_box, collision, rolls),
            Movement::Accelerating => Self::tick_accelerating(motion, bounding_box, collision, rolls),
            Movement::AcceleratingEdgeIdling => Self::tick_accelerating_edge_idling(
                motion,
                bounding_box,
                collision,
                rolls,
            ),
            Movement::Crab => Self::tick_crab(motion, bounding_box, collision, rolls),
            Movement::Random => Self::tick_random(motion, bounding_box, collision, rolls),
        }
    }

    /// One tick of this movement on `motion`, with fresh rolls.
    pub fn tick(&mut self, motion: Motion, bounding_box: Rect, collision: Collision) -> (r: Motion)
        requires
            motion.wf(),
            bounding_box.bounded(),
        ensures
            *final(self) == *old(self),
            exists|rolls: MovementRolls|
                rolls.in_range() && r == old(self).ticked(motion, bounding_box, collision, rolls),
            r.wf(),
            r.position == motion.position,
            r.max_speed == motion.max_speed,
            *old(self) != Movement::Crab ==> abs(r.rotation as int) <= MAX_ROTATION,
            *old(self) == Movement::Crab ==> r.rotation == motion.rotation,
    {
        let rolls = MovementRolls::draw();
        let r = self.tick_by_rolls(motion, bounding_box, collision, rolls);
        assert(rolls.in_range() && r == self.ticked(motion, bounding_box, collision, rolls));
        r
    }

    /// Any kind but `Crab`, picked at random.
    pub fn random() -> (r: Movement)
        ensures
            r != Movement::Crab,
    {
        let kinds = vec![
            Movement::SingleSpeed,
            Movement::Accelerating,
            Movement::AcceleratingEdgeIdling,
            Movement::Random,
        ];
        let picked = choose_item(kinds.as_slice());
        *picked.unwrap()
    }

    fn tick_single_speed(
        mut motion: Motion,
        bounding_box: Rect,
        collision: Collision,
        rolls: MovementRolls,
    ) -> (r: Motion)
        requires
            motion.wf(),
            bounding_box.bounded(),
        ensures
            r == Movement::SingleSpeed.ticked(motion, bounding_box, collision, rolls),
            r.wf(),
    {
        motion.collision(collision);
        motion.change_direction_by_bounding_box(bounding_box);
        motion.change_acceleration_by_rolls(1, rolls.turn_x, rolls.turn_y);
        motion.rotate();
        motion
    }

    fn tick_accelerating(
        mut motion: Motion,
        bounding_box: Rect,
        collision: Collision,
        rolls: MovementRolls,
    ) -> (r: Motion)
        requires
            motion.wf(),
            bounding_box.bounded(),
        ensures
            r == Movement::Accelerating.ticked(motion, bounding_box, collision, rolls),
            r.wf(),
    {
        motion.collision(collision);
        motion.accelerate();
        motion.change_direction_by_bounding_box(bounding_box);
        motion.change_acceleration_by_rolls(1, rolls.turn_x, rolls.turn_y);
        motion.rotate();
        motion
    }

    fn tick_accelerating_edge_idling(
        mut motion: Motion,
        bounding_box: Rect,
        collision: Collision,
        rolls: MovementRolls,
    ) -> (r: Motion)
        requires
            motion.wf(),
            bounding_box.bounded(),
        ensures
            r == Movement::AcceleratingEdgeIdling.ticked(motion, bounding_box, collision, rolls),
            r.wf(),
    {
        motion.collision(collision);
        motion.accelerate();
        motion.change_direction_vertically(bounding_box);
        motion.change_acceleration_by_rolls(1, rolls.turn_x, rolls.turn_y);
        motion.rotate();
        motion
    }

    fn tick_crab(
        mut motion: Motion,
        bounding_box: Rect,
        collision: Collision,
        rolls: MovementRolls,
    ) -> (r: Motion)
        requires
            motion.wf(),
            bounding_box.bounded(),
        ensures
            r == Movement::Crab.ticked(motion, bounding_box, collision, rolls),
            r.wf(),
    {
        motion.collision(collision);
        motion.accelerate();
        motion.change_direction_by_bounding_box(bounding_box);
        motion.change_acceleration_by_rolls(5, rolls.turn_x, rolls.turn_y);
        motion
    }

    fn tick_random(
        mut motion: Motion,
        bounding_box: Rect,
        collision: Collision,
        rolls: MovementRolls,
    ) -> (r: Motion)
        requires
            motion.wf(),
            bounding_box.bounded(),
        ensures
            r == Movement::Random.ticked(motion, bounding_box, collision, rolls),
            r.wf(),
    {
        motion.collision(collision);
        motion.accelerate();
        motion.idle_by_roll(rolls.idle);
        motion.change_direction_by_bounding_box(bounding_box);
        motion.change_acceleration_by_rolls(1, rolls.turn_x, rolls.turn_y);
        motion.rotate();
        motion
    }
}

} // verus!
