//! The playfield and its per-tick step: contacts, speed ramp, movement.

use vstd::prelude::*;
use crate::behaviors::{ObjectMovementBehaviors, interaction_result, movement_result};
use crate::objects::{COORD_LIMIT, GameObject, ObjectType, Position, pixel_of};
use crate::vectors::{EuclideanVector, UNITS_PER_PIXEL};

verus! {

pub const AREA_WIDTH: usize = 90;

pub const AREA_HEIGHT: usize = 50;

/// Fastest a ball may go, in thousandths of a pixel per tick.
pub const MAX_SPEED: u32 = 5000;

/// Speed a ball gains with each contact, in thousandths of a pixel per tick.
pub const SPEED_INCREMENT: u32 = 200;

/// Size of the playfield in whole pixels.
#[derive(Clone, Copy, Debug, PartialEq, Eq, Structural)]
pub struct Bounds {
    pub w: usize,
    pub h: usize,
}

impl Bounds {
    pub fn new(w: usize, h: usize) -> (r: Self)
        ensures
            r.w == w,
            r.h == h,
    {
        Self { w, h }
    }

    /// Whether pixel column `x` lies on the playfield.
    pub fn contains_x(&self, x: usize) -> (r: bool)
        ensures
            r == (x < self.w),
    {
        x < self.w
    }

    /// Whether pixel row `y` lies on the playfield.
    pub fn contains_y(&self, y: usize) -> (r: bool)
        ensures
            r == (y < self.h),
    {
        y < self.h
    }

    /// Whether the pixel that `pos` falls in lies on the playfield.
    pub fn contains(&self, pos: &Position) -> (r: bool)
        ensures
            r == (pos.x_pos >= 0 && pos.y_pos >= 0 && pixel_of(pos.x_pos as int) < self.w && pixel_of(
                pos.y_pos as int,
            ) < self.h),
    {
        let (x, y) = pos.as_discrete_tuple();
        pos.x_pos >= 0 && pos.y_pos >= 0 && self.contains_x(x) && self.contains_y(y)
    }
}

/// `obj`'s box lies inside a `w` by `h` pixel playfield.
pub open spec fn box_within(obj: GameObject, w: int, h: int) -> bool {
    &&& 0 <= obj.pos.x_pos
    &&& obj.right() <= w * UNITS_PER_PIXEL
    &&& 0 <= obj.pos.y_pos
    &&& obj.bottom() <= h * UNITS_PER_PIXEL
}

/// A contact speeds a ball up by `SPEED_INCREMENT`, up to `MAX_SPEED`.
pub open spec fn speed_ramp(m: u32) -> u32 {
    if m + SPEED_INCREMENT >= MAX_SPEED {
        MAX_SPEED
    } else {
        (m + SPEED_INCREMENT) as u32
    }
}

/// `o` after meeting `other` once: a ball that touches it applies its
/// interaction policy and then speeds up; nothing else changes.
pub open spec fn after_contact(o: GameObject, other: GameObject) -> GameObject {
    if o.object_type == ObjectType::BALL && o.touches(other) {
        let c = interaction_result(o.behavior.interact_behavior.kind, o, other);
        GameObject { vec: EuclideanVector { magnitude: speed_ramp(c.vec.magnitude), ..c.vec }, ..c }
    } else {
        o
    }
}

/// `o`, standing at index `i`, after meeting the first `j` entities of `objs` but itself.
pub open spec fn contacts(o: GameObject, objs: Seq<GameObject>, i: int, j: nat) -> GameObject
    decreases j,
{
    if j == 0 {
        o
    } else {
        let p = contacts(o, objs, i, (j - 1) as nat);
        if j - 1 == i {
            p
        } else {
            after_contact(p, objs[j - 1])
        }
    }
}

/// `o` after its movement policy ran: the old position is kept as the previous one.
pub open spec fn advanced(o: GameObject) -> GameObject {
    GameObject { pos: movement_result(o.behavior.movement_behavior.kind, o), last_pos: o.pos, ..o }
}

/// The entities after the first `n` of them took their turn. Each turn meets
/// every other entity as it is at that moment, then moves.
pub open spec fn step_upto(objs: Seq<GameObject>, n: nat) -> Seq<GameObject>
    decreases n,
{
    if n == 0 {
        objs
    } else {
        let s = step_upto(objs, (n - 1) as nat);
        s.update(n - 1, advanced(contacts(s[n - 1], s, n - 1, s.len())))
    }
}

/// The entities after one tick.
pub open spec fn step(objs: Seq<GameObject>) -> Seq<GameObject> {
    step_upto(objs, objs.len())
}

pub open spec fn all_wf(objs: Seq<GameObject>) -> bool {
    forall|k: int| 0 <= k < objs.len() ==> (#[trigger] objs[k]).wf()
}

/// What a tick leaves of an entity but its position and vector.
pub open spec fn same_frame(a: GameObject, b: GameObject) -> bool {
    &&& a.id == b.id
    &&& a.object_type == b.object_type
    &&& a.dim == b.dim
    &&& a.behavior == b.behavior
}

proof fn lemma_contacts_frame(o: GameObject, objs: Seq<GameObject>, i: int, j: nat)
    ensures
        same_frame(contacts(o, objs, i, j), o),
        contacts(o, objs, i, j).pos == o.pos,
        contacts(o, objs, i, j).last_pos == o.last_pos,
    decreases j,
{
    if j > 0 {
        lemma_contacts_frame(o, objs, i, (j - 1) as nat);
    }
}

proof fn lemma_step_upto_frame(objs: Seq<GameObject>, n: nat)
    requires
        n <= objs.len(),
    ensures
        step_upto(objs, n).len() == objs.len(),
        forall|k: int| 0 <= k < objs.len() ==> same_frame(#[trigger] step_upto(objs, n)[k], objs[k]),
        forall|k: int|
            n <= k < objs.len() ==> #[trigger] step_upto(objs, n)[k] == objs[k],
        forall|k: int|
            0 <= k < objs.len() && objs[k].behavior.movement_behavior.kind
                == ObjectMovementBehaviors::STATIONARY ==> (#[trigger] step_upto(objs, n)[k]).pos
                == objs[k].pos,
    decreases n,
{
    if n > 0 {
        lemma_step_upto_frame(objs, (n - 1) as nat);
        let s = step_upto(objs, (n - 1) as nat);
        lemma_contacts_frame(s[n - 1], s, n - 1, s.len());
    }
}

/// A tick keeps the number of entities and each one's id, type, box size
/// and policies; stationary entities keep their place, and all stay well formed.
pub proof fn lemma_step_len(objs: Seq<GameObject>)
    ensures
        step(objs).len() == objs.len(),
        forall|k: int| 0 <= k < objs.len() ==> same_frame(#[trigger] step(objs)[k], objs[k]),
        forall|k: int|
            0 <= k < objs.len() && objs[k].behavior.movement_behavior.kind
                == ObjectMovementBehaviors::STATIONARY ==> (#[trigger] step(objs)[k]).pos
                == objs[k].pos,
{
    lemma_step_upto_frame(objs, objs.len());
}

/// The speed after `n` contacts, starting from `m`.
pub open spec fn ramped(m: u32, n: nat) -> u32
    decreases n,
{
    if n == 0 {
        m
    } else {
        speed_ramp(ramped(m, (n - 1) as nat))
    }
}

/// Speed ramp: from a speed `m` of at most `MAX_SPEED`, `n` contacts give
/// `m + n * SPEED_INCREMENT` held to `MAX_SPEED`, and never more than
/// `MAX_SPEED`. From one pixel per tick, twenty contacts reach it exactly.
pub proof fn lemma_speed_ramp_saturates(m: u32, n: nat)
    requires
        m <= MAX_SPEED,
    ensures
        ramped(m, n) == (if m + n * SPEED_INCREMENT >= MAX_SPEED {
            MAX_SPEED as int
        } else {
            m + n * SPEED_INCREMENT
        }),
        ramped(m, n) <= MAX_SPEED,
        m == UNITS_PER_PIXEL && n >= 20 ==> ramped(m, n) == MAX_SPEED,
    decreases n,
{
    if n > 0 {
        lemma_speed_ramp_saturates(m, (n - 1) as nat);
    }
}

/// Entities that keep still stay inside the playfield: a tick leaves an
/// entity with the stationary policy whose box was inside a `w` by `h`
/// playfield inside it.
pub proof fn lemma_step_keeps_stationary_in_bounds(objs: Seq<GameObject>, w: int, h: int, k: int)
    requires
        0 <= k < objs.len(),
        objs[k].behavior.movement_behavior.kind == ObjectMovementBehaviors::STATIONARY,
        box_within(objs[k], w, h),
    ensures
        box_within(step(objs)[k], w, h),
{
    lemma_step_len(objs);
    assert(same_frame(step(objs)[k], objs[k]));
}

/// The playfield and every entity on it, in insertion order.
pub struct PlayArea {
    pub dims: Bounds,
    pub game_objects: Vec<GameObject>,
}

impl PlayArea {
    pub open spec fn wf(self) -> bool {
        &&& self.dims.w * UNITS_PER_PIXEL <= COORD_LIMIT
        &&& self.dims.h * UNITS_PER_PIXEL <= COORD_LIMIT
        &&& all_wf(self.game_objects@)
    }

    /// An empty playfield of `width` by `height` pixels.
    pub fn new(width: usize, height: usize) -> (r: Self)
        ensures
            r.dims == (Bounds { w: width, h: height }),
            r.game_objects@.len() == 0,
    {
        Self { dims: Bounds::new(width, height), game_objects: Vec::new() }
    }

    /// An empty playfield of the given size.
    pub fn from_bounds(dims: Bounds) -> (r: Self)
        ensures
            r.dims == dims,
            r.game_objects@.len() == 0,
    {
        Self { dims, game_objects: Vec::new() }
    }

    /// Whether `obj`'s box lies inside the playfield.
    pub fn object_within_bounds(&self, obj: &GameObject) -> (r: bool)
        requires
            self.wf(),
            obj.wf(),
        ensures
            r == box_within(*obj, self.dims.w as int, self.dims.h as int),
    {
        let w = (self.dims.w as i64) * UNITS_PER_PIXEL;
        let h = (self.dims.h as i64) * UNITS_PER_PIXEL;
        0 <= obj.pos.x_pos && obj.x_extent() <= w && 0 <= obj.pos.y_pos && obj.y_extent() <= h
    }

    pub fn get_width(&self) -> (r: usize)
        ensures
            r == self.dims.w,
    {
        self.dims.w
    }

    pub fn get_height(&self) -> (r: usize)
        ensures
            r == self.dims.h,
    {
        self.dims.h
    }

    pub fn dims_as_tuple(&self) -> (r: (usize, usize))
        ensures
            r == (self.dims.w, self.dims.h),
    {
        (self.get_width(), self.get_height())
    }

    /// Adds an entity at the end. Only entities whose box lies inside the
    /// playfield can be added.
    pub fn add_game_object(&mut self, obj: GameObject)
        requires
            old(self).wf(),
            obj.wf(),
            box_within(obj, old(self).dims.w as int, old(self).dims.h as int),
        ensures
            final(self).wf(),
            final(self).dims == old(self).dims,
            final(self).game_objects@ == old(self).game_objects@.push(obj),
    {
        self.game_objects.push(obj);
    }

    /// Speeds `obj` up by one contact's worth (see `speed_ramp`).
    pub fn resolve_speed_increase(obj: &mut GameObject)
        ensures
            *final(obj) == (GameObject {
                vec: EuclideanVector { magnitude: speed_ramp(old(obj).vec.magnitude), ..old(obj).vec },
                ..*old(obj)
            }),
    {
        if obj.vec.get_magnitude() >= MAX_SPEED - SPEED_INCREMENT {
            obj.vec.set_magnitude(MAX_SPEED);
        } else {
            obj.vec.set_magnitude(obj.vec.get_magnitude() + SPEED_INCREMENT)
        }
    }

    fn resolve_movement(obj: &mut GameObject)
        requires
            old(obj).wf(),
        ensures
            *final(obj) == advanced(*old(obj)),
            final(obj).wf(),
    {
        let next_pos = obj.next_pos();
        obj.update_pos(next_pos);
    }

    fn check_if_adjacent(obj: &GameObject, other: &GameObject) -> (r: bool)
        requires
            obj.wf(),
            other.wf(),
        ensures
            r == obj.touches(*other),
    {
        obj.intersecting(other)
    }

    fn resolve_interact(obj: &mut GameObject, other: &GameObject)
        requires
            old(obj).wf(),
            other.wf(),
        ensures
            *final(obj) == after_contact(*old(obj), *other),
    {
        if obj.object_type == ObjectType::BALL {
            if Self::check_if_adjacent(obj, other) {
                let behavior = obj.behavior;
                behavior.interact(obj, other);
                Self::resolve_speed_increase(obj);
            }
        }
    }

    /// One tick: each entity in turn meets every other one (see
    /// `after_contact`), then moves by its movement policy.
    pub fn resolve_object_behaviors(&mut self)
        requires
            old(self).wf(),
        ensures
            final(self).wf(),
            final(self).dims == old(self).dims,
            final(self).game_objects@ == step(old(self).game_objects@),
    {
        let n = self.game_objects.len();
        let ghost orig = self.game_objects@;
        let mut i: usize = 0;
        while i < n
            invariant
                0 <= i <= n,
                n == orig.len(),
                self.wf(),
                self.dims == old(self).dims,
                orig == old(self).game_objects@,
                self.game_objects@ == step_upto(orig, i as nat),
            decreases n - i,
        {
            proof {
                lemma_step_upto_frame(orig, i as nat);
            }
            let ghost s = self.game_objects@;
            let mut obj = self.game_objects[i];
            let mut j: usize = 0;
            while j < n
                invariant
                    0 <= i < n,
                    0 <= j <= n,
                    n == s.len(),
                    self.game_objects@ == s,
                    self.wf(),
                    obj.wf(),
                    obj == contacts(s[i as int], s, i as int, j as nat),
                decreases n - j,
            {
                if i != j {
                    let other = self.game_objects[j];
                    Self::resolve_interact(&mut obj, &other);
                    proof {
                        lemma_contacts_frame(s[i as int], s, i as int, (j + 1) as nat);
                    }
                }
                j = j + 1;
            }
            Self::resolve_movement(&mut obj);
            self.game_objects.set(i, obj);
            i = i + 1;
        }
    }
}

impl Default for PlayArea {
    fn default() -> (r: Self)
        ensures
            r.dims == (Bounds { w: AREA_WIDTH, h: AREA_HEIGHT }),
            r.game_objects@.len() == 0,
    {
        Self::new(AREA_WIDTH, AREA_HEIGHT)
    }
}

} // verus!
