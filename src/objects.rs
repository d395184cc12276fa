//! Entity identity, position, size and the box-contact test.

use vstd::prelude::*;
use crate::behaviors::{ObjectBehavior, interaction_result, movement_result};
use crate::vectors::{EuclideanVector, UNITS_PER_PIXEL};

verus! {

/// Largest coordinate or extent, in thousandths of a pixel, that an entity
/// may have; positions that would leave this range stop at its edge.
pub const COORD_LIMIT: i64 = 0x2000_0000_0000_0000;

/// `v` held to `[-COORD_LIMIT, COORD_LIMIT]`.
pub open spec fn clamp_coord(v: int) -> int {
    if v > COORD_LIMIT {
        COORD_LIMIT as int
    } else if v < -COORD_LIMIT {
        -COORD_LIMIT
    } else {
        v
    }
}

/// `clamp_coord(a + b)`, without overflow.
pub fn clamped_sum(a: i64, b: i64) -> (r: i64)
    ensures
        r == clamp_coord(a + b),
{
    let v: i128 = (a as i128) + (b as i128);
    if v > COORD_LIMIT as i128 {
        COORD_LIMIT
    } else if v < -(COORD_LIMIT as i128) {
        -COORD_LIMIT
    } else {
        v as i64
    }
}

#[allow(non_camel_case_types)]
#[derive(Clone, Copy, Debug, PartialEq, Eq, Structural, Hash)]
pub enum ObjectType {
    BALL,
    PADDLE,
    WALL,
    GOAL,
    CUSTOM,
}

/// The upper-case name of an entity type.
pub open spec fn kind_name(t: ObjectType) -> Seq<char> {
    match t {
        ObjectType::BALL => seq!['B', 'A', 'L', 'L'],
        ObjectType::PADDLE => seq!['P', 'A', 'D', 'D', 'L', 'E'],
        ObjectType::WALL => seq!['W', 'A', 'L', 'L'],
        ObjectType::GOAL => seq!['G', 'O', 'A', 'L'],
        ObjectType::CUSTOM => seq!['C', 'U', 'S', 'T', 'O', 'M'],
    }
}

/// The decimal digit for `d < 10`.
pub open spec fn digit_char(d: nat) -> char {
    if d == 0 { '0' } else if d == 1 { '1' } else if d == 2 { '2' } else if d == 3 { '3' } else if d == 4 {
        '4'
    } else if d == 5 { '5' } else if d == 6 { '6' } else if d == 7 { '7' } else if d == 8 { '8' } else {
        '9'
    }
}

/// `n` written in decimal, without leading zeros.
pub open spec fn decimal(n: nat) -> Seq<char>
    decreases n,
{
    if n < 10 {
        seq![digit_char(n)]
    } else {
        decimal(n / 10).push(digit_char(n % 10))
    }
}

/// An id as text: the type's name, an underscore and the instance number.
pub open spec fn id_label(id: ObjectId) -> Seq<char> {
    match id {
        ObjectId::ID(t, n) => kind_name(t) + seq!['_'] + decimal(n as nat),
    }
}

/// Relies on `String::push`: appends one character.
#[verifier::external_body]
fn push_char(s: &mut String, c: char)
    ensures
        final(s)@ == old(s)@.push(c),
{
    s.push(c)
}

fn digit(d: u32) -> (c: char)
    requires
        d < 10,
    ensures
        c == digit_char(d as nat),
{
    if d == 0 { '0' } else if d == 1 { '1' } else if d == 2 { '2' } else if d == 3 { '3' } else if d == 4 {
        '4'
    } else if d == 5 { '5' } else if d == 6 { '6' } else if d == 7 { '7' } else if d == 8 { '8' } else {
        '9'
    }
}

fn push_decimal(s: &mut String, n: u32)
    ensures
        final(s)@ == old(s)@ + decimal(n as nat),
    decreases n,
{
    if n >= 10 {
        push_decimal(s, n / 10);
    }
    push_char(s, digit(n % 10));
    proof {
        assert(old(s)@ + decimal(n as nat) =~= s@);
    }
}

impl ObjectType {
    /// The type's name, as in `BALL`.
    pub fn name(&self) -> (r: String)
        ensures
            r@ == kind_name(*self),
    {
        match self {
            ObjectType::BALL => {
                proof {
                    reveal_strlit("BALL");
                }
                "BALL".to_owned()
            },
            ObjectType::PADDLE => {
                proof {
                    reveal_strlit("PADDLE");
                }
                "PADDLE".to_owned()
            },
            ObjectType::WALL => {
                proof {
                    reveal_strlit("WALL");
                }
                "WALL".to_owned()
            },
            ObjectType::GOAL => {
                proof {
                    reveal_strlit("GOAL");
                }
                "GOAL".to_owned()
            },
            ObjectType::CUSTOM => {
                proof {
                    reveal_strlit("CUSTOM");
                }
                "CUSTOM".to_owned()
            },
        }
    }
}

impl ObjectId {
    /// The id as text, as in `BALL_0`.
    pub fn label(&self) -> (r: String)
        ensures
            r@ == id_label(*self),
    {
        match self {
            ObjectId::ID(t, n) => {
                let mut s = t.name();
                push_char(&mut s, '_');
                push_decimal(&mut s, *n);
                proof {
                    assert(s@ =~= id_label(*self));
                }
                s
            },
        }
    }
}

/// An entity's identity: its type and its instance number within that type.
#[allow(non_camel_case_types)]
#[derive(Clone, Copy, Debug, PartialEq, Eq, Structural, Hash)]
pub enum ObjectId {
    ID(ObjectType, u32),
}

/// A point of the playfield, in thousandths of a pixel.
#[derive(Clone, Copy, Debug, PartialEq, Eq, Structural)]
pub struct Position {
    pub x_pos: i64,
    pub y_pos: i64,
}

impl Position {
    pub open spec fn wf(self) -> bool {
        &&& -COORD_LIMIT <= self.x_pos <= COORD_LIMIT
        &&& -COORD_LIMIT <= self.y_pos <= COORD_LIMIT
    }

    pub fn new(x_pos: i64, y_pos: i64) -> (r: Self)
        requires
            -COORD_LIMIT <= x_pos <= COORD_LIMIT,
            -COORD_LIMIT <= y_pos <= COORD_LIMIT,
        ensures
            r.x_pos == x_pos,
            r.y_pos == y_pos,
            r.wf(),
    {
        Self { x_pos, y_pos }
    }

    pub fn get_x_pos(&self) -> (r: i64)
        ensures
            r == self.x_pos,
    {
        self.x_pos
    }

    pub fn get_y_pos(&self) -> (r: i64)
        ensures
            r == self.y_pos,
    {
        self.y_pos
    }

    /// Moves right by `change`, stopping at the edge of the coordinate range.
    pub fn inc_x_pos(&mut self, change: i64)
        requires
            old(self).wf(),
        ensures
            final(self).x_pos == clamp_coord(old(self).x_pos + change),
            final(self).y_pos == old(self).y_pos,
            final(self).wf(),
    {
        self.x_pos = clamped_sum(self.x_pos, change);
    }

    /// Moves down by `change`, stopping at the edge of the coordinate range.
    pub fn inc_y_pos(&mut self, change: i64)
        requires
            old(self).wf(),
        ensures
            final(self).y_pos == clamp_coord(old(self).y_pos + change),
            final(self).x_pos == old(self).x_pos,
            final(self).wf(),
    {
        self.y_pos = clamped_sum(self.y_pos, change);
    }

    pub fn as_tuple(&self) -> (r: (i64, i64))
        ensures
            r == (self.x_pos, self.y_pos),
    {
        (self.x_pos, self.y_pos)
    }

    /// Whole-pixel coordinates, rounded down; negative coordinates give 0.
    pub fn as_discrete_tuple(&self) -> (r: (usize, usize))
        ensures
            r.0 == pixel_of(self.x_pos as int),
            r.1 == pixel_of(self.y_pos as int),
    {
        (Self::pixel(self.x_pos), Self::pixel(self.y_pos))
    }

    fn pixel(v: i64) -> (r: usize)
        ensures
            r == pixel_of(v as int),
    {
        if v < 0 {
            0
        } else {
            ((v as u64) / (UNITS_PER_PIXEL as u64)) as usize
        }
    }
}

/// The whole pixel that a coordinate falls in, as a `usize` (0 if negative).
pub open spec fn pixel_of(v: int) -> usize {
    if v < 0 {
        0
    } else {
        (v / (UNITS_PER_PIXEL as int)) as usize
    }
}

impl Default for Position {
    fn default() -> (r: Self)
        ensures
            r.x_pos == 0 && r.y_pos == 0,
    {
        Self::new(0, 0)
    }
}

/// Width and height of an entity's box, in thousandths of a pixel.
#[derive(Clone, Copy, Debug, PartialEq, Eq, Structural)]
pub struct ObjectDimensions {
    pub width: i64,
    pub height: i64,
}

impl ObjectDimensions {
    pub open spec fn wf(self) -> bool {
        &&& 0 <= self.width <= COORD_LIMIT
        &&& 0 <= self.height <= COORD_LIMIT
    }

    /// Dimensions of `width` by `height` whole pixels.
    pub fn new(width: usize, height: usize) -> (r: Self)
        requires
            width * UNITS_PER_PIXEL <= COORD_LIMIT,
            height * UNITS_PER_PIXEL <= COORD_LIMIT,
        ensures
            r.width == width * UNITS_PER_PIXEL,
            r.height == height * UNITS_PER_PIXEL,
            r.wf(),
    {
        Self { width: (width as i64) * UNITS_PER_PIXEL, height: (height as i64) * UNITS_PER_PIXEL }
    }

    pub fn get_width(&self) -> (r: i64)
        ensures
            r == self.width,
    {
        self.width
    }

    pub fn get_height(&self) -> (r: i64)
        ensures
            r == self.height,
    {
        self.height
    }
}

/// A simulated entity. Two entities are equal when their ids are.
#[derive(Clone, Copy, Debug)]
pub struct GameObject {
    pub id: ObjectId,
    pub object_type: ObjectType,
    pub pos: Position,
    pub last_pos: Position,
    pub dim: ObjectDimensions,
    pub vec: EuclideanVector,
    pub behavior: ObjectBehavior,
}

impl PartialEq for GameObject {
    fn eq(&self, other: &GameObject) -> (r: bool) {
        self.id == other.id
    }
}

impl vstd::std_specs::cmp::PartialEqSpecImpl for GameObject {
    open spec fn obeys_eq_spec() -> bool {
        true
    }

    open spec fn eq_spec(&self, other: &GameObject) -> bool {
        self.id == other.id
    }
}

/// `p` lies in the half-open range `[lo, hi)`.
pub open spec fn in_range(p: int, lo: int, hi: int) -> bool {
    lo <= p < hi
}

impl GameObject {
    pub open spec fn wf(self) -> bool {
        &&& self.pos.wf()
        &&& self.last_pos.wf()
        &&& self.dim.wf()
    }

    /// Right edge of the box.
    pub open spec fn right(self) -> int {
        self.pos.x_pos + self.dim.width
    }

    /// Bottom edge of the box.
    pub open spec fn bottom(self) -> int {
        self.pos.y_pos + self.dim.height
    }

    /// The box test used for contacts: a near or far edge of `self` on the
    /// x-axis lies in `other`'s x-range, and the same holds on the y-axis.
    /// Only `self`'s corners are tested, so it is not symmetric: a small box
    /// inside a large one touches it, the large one not the small one.
    pub open spec fn touches(self, other: GameObject) -> bool {
        &&& (in_range(self.pos.x_pos as int, other.pos.x_pos as int, other.right())
            || in_range(self.right(), other.pos.x_pos as int, other.right()))
        &&& (in_range(self.pos.y_pos as int, other.pos.y_pos as int, other.bottom())
            || in_range(self.bottom(), other.pos.y_pos as int, other.bottom()))
    }

    pub fn new(
        id: ObjectId,
        object_type: ObjectType,
        pos: Position,
        dim: ObjectDimensions,
        vec: EuclideanVector,
        behavior: ObjectBehavior,
    ) -> (r: Self)
        ensures
            r.id == id,
            r.object_type == object_type,
            r.pos == pos,
            r.last_pos == pos,
            r.dim == dim,
            r.vec == vec,
            r.behavior == behavior,
    {
        Self { id, object_type, pos, last_pos: pos, dim, vec, behavior }
    }

    pub fn x_extent(&self) -> (r: i64)
        requires
            self.wf(),
        ensures
            r == self.right(),
    {
        self.pos.x_pos + self.dim.width
    }

    pub fn y_extent(&self) -> (r: i64)
        requires
            self.wf(),
        ensures
            r == self.bottom(),
    {
        self.pos.y_pos + self.dim.height
    }

    /// Centre of the box (half sizes rounded down).
    pub fn midpoint(&self) -> (r: Position)
        requires
            self.wf(),
        ensures
            r.x_pos == self.pos.x_pos + self.dim.width / 2,
            r.y_pos == self.pos.y_pos + self.dim.height / 2,
    {
        Position { x_pos: self.pos.x_pos + self.dim.width / 2, y_pos: self.pos.y_pos + self.dim.height / 2 }
    }

    /// The half-open x- and y-ranges that the box covers.
    pub fn dim_boundaries(&self) -> (r: ((i64, i64), (i64, i64)))
        requires
            self.wf(),
        ensures
            r == ((self.pos.x_pos, self.right() as i64), (self.pos.y_pos, self.bottom() as i64)),
    {
        ((self.pos.x_pos, self.x_extent()), (self.pos.y_pos, self.y_extent()))
    }

    /// The id as text, as in `PADDLE_1`.
    pub fn get_id(&self) -> (r: String)
        ensures
            r@ == id_label(self.id),
    {
        self.id.label()
    }

    /// Stops the entity: zero magnitude, angle 0.
    pub fn kill_velocity(&mut self)
        ensures
            *final(self) == (GameObject { vec: EuclideanVector { magnitude: 0, angle: 0 }, ..*old(self) }),
    {
        self.vec.set_angle(0);
        self.vec.set_magnitude(0);
    }

    /// Where the movement policy puts the entity next.
    pub fn next_pos(&self) -> (r: Position)
        requires
            self.wf(),
        ensures
            r == movement_result(self.behavior.movement_behavior.kind, *self),
            r.wf(),
    {
        let behavior = self.behavior;
        behavior.movement(self)
    }

    /// Records the current position as the previous one and moves to `new_pos`.
    pub fn update_pos(&mut self, new_pos: Position)
        ensures
            *final(self) == (GameObject { pos: new_pos, last_pos: old(self).pos, ..*old(self) }),
    {
        self.last_pos = self.pos;
        self.pos = new_pos;
    }

    pub fn fetch_last_position(&self) -> (r: Position)
        ensures
            r == self.last_pos,
    {
        self.last_pos
    }

    /// Applies this entity's interaction policy after it ran into `other`.
    pub fn interact_with(&mut self, other: &Self)
        ensures
            *final(self) == interaction_result(
                old(self).behavior.interact_behavior.kind,
                *old(self),
                *other,
            ),
    {
        let behavior = self.behavior;
        behavior.interact(self, other)
    }

    /// Whether `self`'s box touches `other`'s (see `touches`).
    pub fn intersecting(&self, other: &Self) -> (r: bool)
        requires
            self.wf(),
            other.wf(),
        ensures
            r == self.touches(*other),
    {
        let (other_x, other_y) = other.dim_boundaries();
        let x_end = self.x_extent();
        let y_end = self.y_extent();
        (other_x.0 <= self.pos.x_pos && self.pos.x_pos < other_x.1 || other_x.0 <= x_end && x_end
            < other_x.1) && (other_y.0 <= self.pos.y_pos && self.pos.y_pos < other_y.1 || other_y.0
            <= y_end && y_end < other_y.1)
    }
}

} // verus!
