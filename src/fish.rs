use crate::collision::Collision;
use crate::geometry::{abs, Rect, Vec2, MAX_COORD, UNIT};
use crate::motion::{Motion, MAX_DELTA, MAX_ROTATION, MAX_SPEED};
use crate::movement::{Movement, MovementRolls};
use crate::random::{choose_item, random_below};
use vstd::prelude::*;

verus! {

/// Neighbours whose widths differ by this much or more are ignored.
pub const COLLISION_SIZE_DIFFERENCE: i64 = 2 * UNIT;

/// A collision roll lies in `[1, AVERSION_STEPS]`; the aversion of a fish is
/// in thousandths, so a fish reacts when the roll exceeds it.
pub const AVERSION_STEPS: u64 = 1000;

/// Largest width of a fish.
pub const MAX_FISH_SIZE: i64 = 10_000_000_000;

/// Largest side of a texture, in pixels.
pub const MAX_TEXTURE_SIDE: u32 = 16_384;

/// Largest magnitude of the coordinates and extents of an area to swim in.
pub const MAX_AREA: i64 = 1_000_000_000_000;

/// Largest magnitude of the coordinates and extents of an adjusted area.
pub const MAX_BOX: i64 = 250_000_000_000_000;

/// The pixel size of a fish's picture, which sets its aspect ratio.
#[derive(Clone, Copy, Debug, PartialEq, Eq, Structural)]
pub struct TextureSize {
    pub width: u32,
    pub height: u32,
}

impl TextureSize {
    pub open spec fn wf(self) -> bool {
        1 <= self.width <= MAX_TEXTURE_SIDE && 1 <= self.height <= MAX_TEXTURE_SIDE
    }
}

/// One fish: its motion, how it moves, and what it looks like.
pub struct Fish {
    pub motion: Motion,
    pub movement: Movement,
    pub size: Vec2,
    pub bubble_amount: u32,
    pub bounding_box_adjusted: Rect,
    pub collision_aversion: u64,
    pub already_collided: bool,
    pub texture: String,
}

pub open spec fn area_bounded(r: Rect) -> bool {
    &&& abs(r.x as int) <= MAX_AREA
    &&& abs(r.y as int) <= MAX_AREA
    &&& abs(r.w as int) <= MAX_AREA
    &&& abs(r.h as int) <= MAX_AREA
}

pub open spec fn box_bounded(r: Rect) -> bool {
    &&& abs(r.x as int) <= MAX_BOX
    &&& abs(r.y as int) <= MAX_BOX
    &&& abs(r.w as int) <= MAX_BOX
    &&& abs(r.h as int) <= MAX_BOX
}

/// The height of a fish `width` wide drawn with `texture`'s aspect ratio.
pub open spec fn height_for(width: int, texture: TextureSize) -> int {
    width * texture.height / texture.width as int
}

/// `bounding_box` shrunk by `size`, so that a fish whose corner stays in the
/// result stays wholly in `bounding_box`.
pub open spec fn adjusted_box(bounding_box: Rect, size: Vec2) -> Rect {
    Rect {
        x: bounding_box.x,
        y: bounding_box.y,
        w: (bounding_box.w - size.x) as i64,
        h: (bounding_box.h - size.y) as i64,
    }
}

/// A footprint at the same corner as `own`: the fish's own, however wide.
pub open spec fn same_position(cbox: Rect, own: Rect) -> bool {
    cbox.x == own.x && cbox.y == own.y
}

/// Some footprint in `boxes` at another position than `own` overlaps `own`.
pub open spec fn overlapped(boxes: Seq<Rect>, own: Rect) -> bool {
    exists|j: int|
        0 <= j < boxes.len() && !same_position(boxes[j], own) && #[trigger] boxes[j].overlaps_spec(
            own,
        )
}

pub open spec fn rolls_in_range(rolls: Seq<u64>) -> bool {
    forall|i: int| 0 <= i < rolls.len() ==> 1 <= #[trigger] rolls[i] <= AVERSION_STEPS
}

impl Fish {
    pub open spec fn wf(self) -> bool {
        &&& self.motion.wf()
        &&& box_bounded(self.bounding_box_adjusted)
        &&& self.motion.position == self.bounding_box_adjusted.clamp_spec(self.motion.position)
        &&& 0 <= self.size.x <= MAX_FISH_SIZE
        &&& 0 <= self.size.y <= MAX_FISH_SIZE * MAX_TEXTURE_SIDE
    }

    /// The rectangle the fish covers now.
    pub open spec fn footprint(self) -> Rect {
        Rect { x: self.motion.position.x, y: self.motion.position.y, w: self.size.x, h: self.size.y }
    }

    /// The fish turns away from `cbox` on a roll of `roll`: `cbox` is off
    /// the fish's own corner on both axes, about as wide, overlapping, and
    /// the roll exceeds the fish's aversion.
    pub open spec fn reacts_to(self, cbox: Rect, roll: int) -> bool {
        &&& cbox.x != self.motion.position.x
        &&& cbox.y != self.motion.position.y
        &&& abs(cbox.w - self.size.x) < COLLISION_SIZE_DIFFERENCE
        &&& self.footprint().overlaps_spec(cbox)
        &&& roll > self.collision_aversion
    }

    /// The signal from the first footprint from index `i` on that the fish
    /// reacts to: away from it, to the right when it lies to the left.
    pub open spec fn first_reaction(self, boxes: Seq<Rect>, rolls: Seq<u64>, i: int) -> Collision
        decreases boxes.len() - i,
    {
        if i < 0 || i >= boxes.len() {
            Collision::No
        } else if self.reacts_to(boxes[i], rolls[i] as int) {
            if boxes[i].x < self.motion.position.x {
                Collision::Left
            } else {
                Collision::Right
            }
        } else {
            self.first_reaction(boxes, rolls, i + 1)
        }
    }

    /// The collision signal for a tick: none right after a tick in which the
    /// fish overlapped another, else the first reaction.
    pub open spec fn collision_for(self, boxes: Seq<Rect>, rolls: Seq<u64>) -> Collision {
        if self.already_collided {
            Collision::No
        } else {
            self.first_reaction(boxes, rolls, 0)
        }
    }

    /// The fish after a tick of `delta` milliseconds among `boxes`.
    pub open spec fn ticked(
        self,
        delta: int,
        boxes: Seq<Rect>,
        collision_rolls: Seq<u64>,
        rolls: MovementRolls,
    ) -> Fish {
        self.ticked_with(delta, boxes, self.collision_for(boxes, collision_rolls), rolls)
    }

    /// The fish after a tick of `delta` milliseconds among `boxes`, in which
    /// the collision step gets `collision`.
    pub open spec fn ticked_with(
        self,
        delta: int,
        boxes: Seq<Rect>,
        collision: Collision,
        rolls: MovementRolls,
    ) -> Fish {
        let motion = self.movement.ticked(
            self.motion,
            self.bounding_box_adjusted,
            collision,
            rolls,
        );
        Fish {
            motion: motion.moved(delta, self.bounding_box_adjusted),
            already_collided: overlapped(boxes, self.footprint()),
            ..self
        }
    }

    /// A fish `fish_size` wide, shaped as `texture_size`, at a random place
    /// of `bounding_box`, swimming at top speed in a random direction.
    pub fn new(
        fish_size: i64,
        max_speed: Vec2,
        collision_aversion: u64,
        bounding_box: Rect,
        movement: Movement,
        texture: String,
        texture_size: TextureSize,
        bubble_amount: u32,
    ) -> (r: Fish)
        requires
            0 <= fish_size <= MAX_FISH_SIZE,
            0 <= max_speed.x <= MAX_SPEED,
            0 <= max_speed.y <= MAX_SPEED,
            area_bounded(bounding_box),
            texture_size.wf(),
        ensures
            r.wf(),
            r.size == (Vec2 { x: fish_size, y: height_for(fish_size as int, texture_size) as i64 }),
            r.bounding_box_adjusted == adjusted_box(bounding_box, r.size),
            bounding_box.w >= r.size.x && bounding_box.h >= r.size.y ==> r.bounding_box_adjusted.contains_spec(r.motion.position),
            r.motion.max_speed == max_speed,
            r.motion.speed.x == max_speed.x || r.motion.speed.x == -max_speed.x,
            r.motion.speed.y == max_speed.y || r.motion.speed.y == -max_speed.y,
            100 <= r.motion.acceleration.x < 200,
            100 <= r.motion.acceleration.y < 200,
            r.motion.rotation == 0,
            !r.motion.idle,
            !r.already_collided,
            r.movement == movement,
            r.collision_aversion == collision_aversion,
            r.texture == texture,
            r.bubble_amount == bubble_amount,
    {
        let tw = texture_size.width as i64;
        let th = texture_size.height as i64;
        assert(fish_size * th <= MAX_FISH_SIZE * MAX_TEXTURE_SIDE) by (nonlinear_arith)
            requires
                0 <= fish_size <= MAX_FISH_SIZE,
                1 <= th <= MAX_TEXTURE_SIDE,
        ;
        assert((fish_size * th) / (tw as int) <= fish_size * th) by (nonlinear_arith)
            requires
                0 <= fish_size * th,
                tw >= 1,
        ;
        let fish_height = fish_size * th / tw;
        let size = Vec2 { x: fish_size, y: fish_height };
        let bbox_adjusted = Self::adjust_bounding_box(bounding_box, size);
        Fish {
            motion: Motion {
                position: Self::random_start_position(bbox_adjusted),
                speed: Self::random_start_direction(max_speed),
                max_speed,
                acceleration: Self::random_acceleration(),
                rotation: 0,
                idle: false,
            },
            size,
            bubble_amount,
            bounding_box_adjusted: bbox_adjusted,
            collision_aversion,
            already_collided: false,
            movement,
            texture,
        }
    }

    /// One tick of `delta` milliseconds among the footprints `collision_boxes`
    /// (the fish's own among them), with the given rolls: the collision
    /// signal is taken, the overlap flag for the next tick is set, the
    /// movement steps the motion, and the position advances.
    pub fn tick_by_rolls(
        &mut self,
        delta: u32,
        collision_boxes: &[Rect],
        collision_rolls: &[u64],
        rolls: MovementRolls,
    )
        requires
            old(self).wf(),
            delta <= MAX_DELTA,
            collision_rolls@.len() == collision_boxes@.len(),
            forall|i: int| 0 <= i < collision_boxes@.len() ==> #[trigger] collision_boxes@[i].bounded(),
        ensures
            *final(self) == old(self).ticked(delta as int, collision_boxes@, collision_rolls@, rolls),
            final(self).wf(),
            old(self).movement != Movement::Crab ==> abs(final(self).motion.rotation as int) <= MAX_ROTATION,
    {
        let collision = self.collision_by_rolls(collision_boxes, collision_rolls);
        self.tick_with_collision(delta, collision_boxes, collision, rolls);
    }

    fn tick_with_collision(
        &mut self,
        delta: u32,
        collision_boxes: &[Rect],
        collision: Collision,
        rolls: MovementRolls,
    )
        requires
            old(self).wf(),
            delta <= MAX_DELTA,
            forall|i: int| 0 <= i < collision_boxes@.len() ==> #[trigger] collision_boxes@[i].bounded(),
        ensures
            *final(self) == old(self).ticked_with(delta as int, collision_boxes@, collision, rolls),
            final(self).wf(),
            old(self).movement != Movement::Crab ==> abs(final(self).motion.rotation as int) <= MAX_ROTATION,
    {
        let collision_box = self.collision_box();
        self.already_collided = Self::overlaps_any(collision_boxes, &collision_box);
        let motion = self.movement.tick_by_rolls(
            self.motion,
            self.bounding_box_adjusted,
            collision,
            rolls,
        );
        let bounding_box = self.bounding_box_adjusted;
        self.motion = self.motion.move_position(delta, motion, bounding_box);
    }

    /// One tick of `delta` milliseconds among the footprints
    /// `collision_boxes`, with fresh rolls.
    pub fn tick(&mut self, delta: u32, collision_boxes: &[Rect])
        requires
            old(self).wf(),
            delta <= MAX_DELTA,
            forall|i: int| 0 <= i < collision_boxes@.len() ==> #[trigger] collision_boxes@[i].bounded(),
        ensures
            exists|collision_rolls: Seq<u64>, rolls: MovementRolls|
                collision_rolls.len() == collision_boxes@.len() && rolls_in_range(collision_rolls)
                    && rolls.in_range() && *final(self) == old(self).ticked(
                    delta as int,
                    collision_boxes@,
                    collision_rolls,
                    rolls,
                ),
            final(self).wf(),
            final(self).already_collided == overlapped(collision_boxes@, old(self).footprint()),
            final(self).bounding_box_adjusted == old(self).bounding_box_adjusted,
            final(self).bounding_box_adjusted.valid()
                ==> final(self).bounding_box_adjusted.contains_spec(final(self).motion.position),
            old(self).already_collided ==> exists|rolls: MovementRolls|
                rolls.in_range() && *final(self) == old(self).ticked_with(
                    delta as int,
                    collision_boxes@,
                    Collision::No,
                    rolls,
                ),
            old(self).movement != Movement::Crab ==> abs(final(self).motion.rotation as int) <= MAX_ROTATION,
    {
        let collision = self.collided(collision_boxes);
        let ghost collision_rolls = choose|collision_rolls: Seq<u64>|
            collision_rolls.len() == collision_boxes@.len() && rolls_in_range(collision_rolls)
                && collision == self.collision_for(collision_boxes@, collision_rolls);
        let rolls = MovementRolls::draw();
        let ghost before = *self;
        self.tick_with_collision(delta, collision_boxes, collision, rolls);
        assert(*self == before.ticked(delta as int, collision_boxes@, collision_rolls, rolls));
        assert(before.already_collided ==> collision == Collision::No);
    }

    /// The collision signal among `collision_boxes`, with a fresh roll for
    /// each footprint: none right after a tick with overlap, and none for a
    /// fish whose aversion is full.
    fn collided(&self, collision_boxes: &[Rect]) -> (r: Collision)
        requires
            self.wf(),
            forall|i: int| 0 <= i < collision_boxes@.len() ==> #[trigger] collision_boxes@[i].bounded(),
        ensures
            exists|collision_rolls: Seq<u64>|
                collision_rolls.len() == collision_boxes@.len() && rolls_in_range(collision_rolls)
                    && r == self.collision_for(collision_boxes@, collision_rolls),
            self.already_collided ==> r == Collision::No,
            self.collision_aversion >= AVERSION_STEPS ==> r == Collision::No,
    {
        let mut collision_rolls: Vec<u64> = Vec::new();
        let mut i: usize = 0;
        while i < collision_boxes.len()
            invariant
                i <= collision_boxes@.len(),
                collision_rolls@.len() == i,
                rolls_in_range(collision_rolls@),
            decreases collision_boxes@.len() - i,
        {
            collision_rolls.push(random_below(AVERSION_STEPS) + 1);
            i = i + 1;
        }
        let r = self.collision_by_rolls(collision_boxes, collision_rolls.as_slice());
        proof {
            if self.collision_aversion >= AVERSION_STEPS {
                lemma_full_aversion_never_turns(*self, collision_boxes@, collision_rolls@);
            }
        }
        r
    }

    /// The collision signal among `collision_boxes`, with the roll
    /// `collision_rolls[i]` for `collision_boxes[i]`.
    pub fn collision_by_rolls(&self, collision_boxes: &[Rect], collision_rolls: &[u64]) -> (r:
        Collision)
        requires
            self.wf(),
            collision_rolls@.len() == collision_boxes@.len(),
            forall|i: int| 0 <= i < collision_boxes@.len() ==> #[trigger] collision_boxes@[i].bounded(),
        ensures
            r == self.collision_for(collision_boxes@, collision_rolls@),
    {
        if self.already_collided {
            return Collision::No;
        }
        let own = self.collision_box();
        let mut i: usize = 0;
        while i < collision_boxes.len()
            invariant
                i <= collision_boxes@.len(),
                collision_rolls@.len() == collision_boxes@.len(),
                forall|k: int| 0 <= k < collision_boxes@.len() ==> #[trigger] collision_boxes@[k].bounded(),
                self.wf(),
                !self.already_collided,
                own == self.footprint(),
                own.bounded(),
                self.first_reaction(collision_boxes@, collision_rolls@, 0) == self.first_reaction(
                    collision_boxes@,
                    collision_rolls@,
                    i as int,
                ),
            decreases collision_boxes@.len() - i,
        {
            let cbox = collision_boxes[i];
            assert(cbox.bounded());
            let width_difference = if cbox.w < own.w {
                own.w - cbox.w
            } else {
                cbox.w - own.w
            };
            if cbox.x != own.x && cbox.y != own.y && width_difference < COLLISION_SIZE_DIFFERENCE
                && own.overlaps(&cbox) && collision_rolls[i] > self.collision_aversion {
                assert(self.reacts_to(cbox, collision_rolls@[i as int] as int));
                return if cbox.x < own.x {
                    Collision::Left
                } else {
                    Collision::Right
                };
            }
            i = i + 1;
        }
        Collision::No
    }

    fn overlaps_any(collision_boxes: &[Rect], own: &Rect) -> (r: bool)
        requires
            own.bounded(),
            forall|i: int| 0 <= i < collision_boxes@.len() ==> #[trigger] collision_boxes@[i].bounded(),
        ensures
            r == overlapped(collision_boxes@, *own),
    {
        let mut i: usize = 0;
        while i < collision_boxes.len()
            invariant
                i <= collision_boxes@.len(),
                own.bounded(),
                forall|k: int| 0 <= k < collision_boxes@.len() ==> #[trigger] collision_boxes@[k].bounded(),
                forall|k: int|
                    0 <= k < i ==> !(!same_position(collision_boxes@[k], *own)
                        && #[trigger] collision_boxes@[k].overlaps_spec(*own)),
            decreases collision_boxes@.len() - i,
        {
            let cbox = collision_boxes[i];
            assert(cbox.bounded());
            if !(cbox.x == own.x && cbox.y == own.y) && cbox.overlaps(own) {
                return true;
            }
            i = i + 1;
        }
        false
    }

    /// The fish swims to the right, or stands still horizontally.
    pub fn swims_right(&self) -> (r: bool)
        ensures
            r == (self.motion.speed.x >= 0),
    {
        self.motion.speed.x >= 0
    }

    /// Where bubbles come from: the back of the fish, halfway down.
    pub fn emit_position(&self) -> (r: Vec2)
        requires
            self.wf(),
        ensures
            r.x == self.motion.position.x + if self.motion.speed.x >= 0 {
                0
            } else {
                self.size.x as int
            },
            r.y == self.motion.position.y + self.size.y / 2,
    {
        let back = if !self.swims_right() {
            self.size.x
        } else {
            0
        };
        Vec2 { x: self.motion.position.x + back, y: self.motion.position.y + self.size.y / 2 }
    }

    /// The fish gives off bubbles now: it swims, is no crab, and has
    /// bubbles to give.
    pub fn emits(&self) -> (r: bool)
        ensures
            r == (!self.motion.idle && self.movement != Movement::Crab && self.bubble_amount > 0),
    {
        match self.movement {
            Movement::Crab => false,
            _ => !self.motion.idle && self.bubble_amount > 0,
        }
    }

    /// The fish's footprint.
    pub fn collision_box(&self) -> (r: Rect)
        requires
            self.wf(),
        ensures
            r == self.footprint(),
            r.bounded(),
    {
        Rect { x: self.motion.position.x, y: self.motion.position.y, w: self.size.x, h: self.size.y }
    }

    fn adjust_bounding_box(bounding_box: Rect, size: Vec2) -> (r: Rect)
        requires
            area_bounded(bounding_box),
            0 <= size.x <= MAX_FISH_SIZE,
            0 <= size.y <= MAX_FISH_SIZE * MAX_TEXTURE_SIDE,
        ensures
            r == adjusted_box(bounding_box, size),
            box_bounded(r),
    {
        Rect {
            x: bounding_box.x,
            y: bounding_box.y,
            w: bounding_box.w - size.x,
            h: bounding_box.h - size.y,
        }
    }

    /// A random point of `bounding_box`; its far corner when the box is
    /// inside out on an axis.
    fn random_start_position(bounding_box: Rect) -> (r: Vec2)
        requires
            box_bounded(bounding_box),
        ensures
            r == bounding_box.clamp_spec(r),
            bounding_box.valid() ==> bounding_box.contains_spec(r),
    {
        let x = if bounding_box.w > 0 {
            bounding_box.x + random_below(bounding_box.w as u64) as i64
        } else {
            bounding_box.x + bounding_box.w
        };
        let y = if bounding_box.h > 0 {
            bounding_box.y + random_below(bounding_box.h as u64) as i64
        } else {
            bounding_box.y + bounding_box.h
        };
        Vec2 { x, y }
    }

    fn random_start_direction(max_speed: Vec2) -> (r: Vec2)
        requires
            0 <= max_speed.x <= MAX_SPEED,
            0 <= max_speed.y <= MAX_SPEED,
        ensures
            r.x == max_speed.x || r.x == -max_speed.x,
            r.y == max_speed.y || r.y == -max_speed.y,
    {
        let signs: Vec<i64> = vec![-1, 1];
        let sx = *choose_item(signs.as_slice()).unwrap();
        let sy = *choose_item(signs.as_slice()).unwrap();
        assert(signs@ == seq![-1i64, 1i64]);
        assert(sx == -1 || sx == 1);
        assert(sy == -1 || sy == 1);
        Vec2 { x: max_speed.x * sx, y: max_speed.y * sy }
    }

    fn random_acceleration() -> (r: Vec2)
        ensures
            100 <= r.x < 200,
            100 <= r.y < 200,
    {
        Vec2 { x: 100 + random_below(100) as i64, y: 100 + random_below(100) as i64 }
    }
}

/// Collision debounce: a tick in which a fish's footprint is overlapped by
/// one at another position sets the fish's flag, so the next tick turns it away from no one, whatever
/// the footprints and rolls then; a tick without overlap clears the flag, so
/// the next tick reacts as usual.
pub proof fn lemma_collision_debounce(
    fish: Fish,
    delta: int,
    boxes: Seq<Rect>,
    collision_rolls: Seq<u64>,
    rolls: MovementRolls,
    next_boxes: Seq<Rect>,
    next_rolls: Seq<u64>,
)
    ensures
        overlapped(boxes, fish.footprint()) ==> fish.ticked(
            delta,
            boxes,
            collision_rolls,
            rolls,
        ).collision_for(next_boxes, next_rolls) == Collision::No,
        !overlapped(boxes, fish.footprint()) ==> {
            let after = fish.ticked(delta, boxes, collision_rolls, rolls);
            after.collision_for(next_boxes, next_rolls) == after.first_reaction(
                next_boxes,
                next_rolls,
                0,
            )
        },
{
}

/// A fish whose aversion is the full `AVERSION_STEPS` never turns away from
/// anyone, on any rolls in range.
pub proof fn lemma_full_aversion_never_turns(fish: Fish, boxes: Seq<Rect>, rolls: Seq<u64>)
    requires
        fish.collision_aversion >= AVERSION_STEPS,
        rolls.len() == boxes.len(),
        rolls_in_range(rolls),
    ensures
        fish.collision_for(boxes, rolls) == Collision::No,
{
    lemma_no_reaction_from(fish, boxes, rolls, 0);
}

proof fn lemma_no_reaction_from(fish: Fish, boxes: Seq<Rect>, rolls: Seq<u64>, i: int)
    requires
        fish.collision_aversion >= AVERSION_STEPS,
        rolls.len() == boxes.len(),
        rolls_in_range(rolls),
        0 <= i,
    ensures
        fish.first_reaction(boxes, rolls, i) == Collision::No,
    decreases boxes.len() - i,
{
    if i < boxes.len() {
        assert(1 <= rolls[i] <= AVERSION_STEPS);
        lemma_no_reaction_from(fish, boxes, rolls, i + 1);
    }
}

} // verus!
