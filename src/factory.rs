//! The entity factory: per-type instance numbers, default vectors and policies.

use vstd::prelude::*;
use crate::behaviors::{
    ObjectBehavior,
    ObjectInteractBehavior,
    ObjectInteractBehaviors,
    ObjectMovementBehavior,
    ObjectMovementBehaviors,
};
use crate::objects::{COORD_LIMIT, GameObject, ObjectDimensions, ObjectId, ObjectType, Position};
use crate::vectors::{EuclideanVector, UNITS_PER_PIXEL};

verus! {

/// The vector that a new entity of type `t` starts with.
pub open spec fn default_vector(t: ObjectType) -> EuclideanVector {
    match t {
        ObjectType::BALL => EuclideanVector { magnitude: 1000, angle: 45 },
        ObjectType::PADDLE => EuclideanVector { magnitude: 1000, angle: 0 },
        ObjectType::WALL => EuclideanVector { magnitude: 1000, angle: 45 },
        ObjectType::GOAL => EuclideanVector { magnitude: 0, angle: 0 },
        ObjectType::CUSTOM => EuclideanVector { magnitude: 0, angle: 0 },
    }
}

/// The interaction policy that a new entity of type `t` starts with.
pub open spec fn default_interaction(t: ObjectType) -> ObjectInteractBehaviors {
    match t {
        ObjectType::BALL => ObjectInteractBehaviors::LOSSLESS_COLLISION,
        ObjectType::PADDLE => ObjectInteractBehaviors::LOSSLESS_COLLISION,
        _ => ObjectInteractBehaviors::NOTHING,
    }
}

/// The movement policy that a new entity of type `t` has.
pub open spec fn default_movement(t: ObjectType) -> ObjectMovementBehaviors {
    match t {
        ObjectType::BALL => ObjectMovementBehaviors::MOVING,
        _ => ObjectMovementBehaviors::STATIONARY,
    }
}

/// Makes entities, numbering the instances of each type from 0 upward.
#[derive(Debug)]
pub struct GameObjectFactory {
    pub balls: u32,
    pub paddles: u32,
    pub walls: u32,
    pub goals: u32,
    pub customs: u32,
}

impl GameObjectFactory {
    /// How many entities of type `t` this factory has made.
    pub open spec fn count(self, t: ObjectType) -> u32 {
        match t {
            ObjectType::BALL => self.balls,
            ObjectType::PADDLE => self.paddles,
            ObjectType::WALL => self.walls,
            ObjectType::GOAL => self.goals,
            ObjectType::CUSTOM => self.customs,
        }
    }

    fn prepare_instance_map() -> (r: Self)
        ensures
            forall|t: ObjectType| #[trigger] r.count(t) == 0,
    {
        Self { balls: 0, paddles: 0, walls: 0, goals: 0, customs: 0 }
    }

    pub fn new() -> (r: Self)
        ensures
            forall|t: ObjectType| #[trigger] r.count(t) == 0,
    {
        Self::prepare_instance_map()
    }

    fn fetch_vector(obj_type: ObjectType) -> (r: EuclideanVector)
        ensures
            r == default_vector(obj_type),
    {
        match obj_type {
            ObjectType::BALL => EuclideanVector::new(1000, 45),
            ObjectType::PADDLE => EuclideanVector::new(1000, 0),
            ObjectType::WALL => EuclideanVector::new(1000, 45),
            ObjectType::GOAL => EuclideanVector::new(0, 0),
            ObjectType::CUSTOM => EuclideanVector::new(0, 0),
        }
    }

    fn fetch_behavior(obj_type: ObjectType) -> (r: ObjectBehavior)
        ensures
            r.interact_behavior.kind == default_interaction(obj_type),
            r.movement_behavior.kind == default_movement(obj_type),
    {
        match obj_type {
            ObjectType::BALL => ObjectBehavior::new(
                ObjectInteractBehavior::create(ObjectInteractBehaviors::LOSSLESS_COLLISION),
                ObjectMovementBehavior::create(ObjectMovementBehaviors::MOVING),
            ),
            ObjectType::PADDLE => ObjectBehavior::new(
                ObjectInteractBehavior::create(ObjectInteractBehaviors::LOSSLESS_COLLISION),
                ObjectMovementBehavior::create(ObjectMovementBehaviors::STATIONARY),
            ),
            ObjectType::WALL => ObjectBehavior::new(
                ObjectInteractBehavior::create(ObjectInteractBehaviors::NOTHING),
                ObjectMovementBehavior::create(ObjectMovementBehaviors::STATIONARY),
            ),
            ObjectType::GOAL => ObjectBehavior::new(
                ObjectInteractBehavior::create(ObjectInteractBehaviors::NOTHING),
                ObjectMovementBehavior::create(ObjectMovementBehaviors::STATIONARY),
            ),
            ObjectType::CUSTOM => ObjectBehavior::new(
                ObjectInteractBehavior::create(ObjectInteractBehaviors::NOTHING),
                ObjectMovementBehavior::create(ObjectMovementBehaviors::STATIONARY),
            ),
        }
    }

    /// Returns the count of `obj_type` and then raises it by one.
    fn get_instance_count_and_increment(&mut self, obj_type: &ObjectType) -> (r: u32)
        requires
            old(self).count(*obj_type) < u32::MAX,
        ensures
            r == old(self).count(*obj_type),
            final(self).count(*obj_type) == old(self).count(*obj_type) + 1,
            forall|t: ObjectType| t != *obj_type ==> #[trigger] final(self).count(t) == old(self).count(t),
    {
        match obj_type {
            ObjectType::BALL => {
                self.balls = self.balls + 1;
                self.balls - 1
            },
            ObjectType::PADDLE => {
                self.paddles = self.paddles + 1;
                self.paddles - 1
            },
            ObjectType::WALL => {
                self.walls = self.walls + 1;
                self.walls - 1
            },
            ObjectType::GOAL => {
                self.goals = self.goals + 1;
                self.goals - 1
            },
            ObjectType::CUSTOM => {
                self.customs = self.customs + 1;
                self.customs - 1
            },
        }
    }

    fn fetch_object_id(&mut self, obj_type: &ObjectType) -> (r: ObjectId)
        requires
            old(self).count(*obj_type) < u32::MAX,
        ensures
            r == ObjectId::ID(*obj_type, old(self).count(*obj_type)),
            final(self).count(*obj_type) == old(self).count(*obj_type) + 1,
            forall|t: ObjectType| t != *obj_type ==> #[trigger] final(self).count(t) == old(self).count(t),
    {
        ObjectId::ID(*obj_type, self.get_instance_count_and_increment(obj_type))
    }

    /// A new entity of type `obj_type` at pixel `(x, y)` with a box of `w` by
    /// `h` pixels, the type's default vector and policies, and the next
    /// instance number of its type.
    pub fn create(&mut self, obj_type: ObjectType, x: usize, y: usize, w: usize, h: usize) -> (r:
        GameObject)
        requires
            old(self).count(obj_type) < u32::MAX,
            x * UNITS_PER_PIXEL <= COORD_LIMIT,
            y * UNITS_PER_PIXEL <= COORD_LIMIT,
            w * UNITS_PER_PIXEL <= COORD_LIMIT,
            h * UNITS_PER_PIXEL <= COORD_LIMIT,
        ensures
            r.wf(),
            r.id == ObjectId::ID(obj_type, old(self).count(obj_type)),
            r.object_type == obj_type,
            r.pos.x_pos == x * UNITS_PER_PIXEL,
            r.pos.y_pos == y * UNITS_PER_PIXEL,
            r.last_pos == r.pos,
            r.dim.width == w * UNITS_PER_PIXEL,
            r.dim.height == h * UNITS_PER_PIXEL,
            r.vec == default_vector(obj_type),
            r.behavior.interact_behavior.kind == default_interaction(obj_type),
            r.behavior.movement_behavior.kind == default_movement(obj_type),
            final(self).count(obj_type) == old(self).count(obj_type) + 1,
            forall|t: ObjectType| t != obj_type ==> #[trigger] final(self).count(t) == old(self).count(t),
    {
        let id = self.fetch_object_id(&obj_type);
        let pos = Position::new((x as i64) * UNITS_PER_PIXEL, (y as i64) * UNITS_PER_PIXEL);
        let dims = ObjectDimensions::new(w, h);
        GameObject::new(
            id,
            obj_type,
            pos,
            dims,
            Self::fetch_vector(obj_type),
            Self::fetch_behavior(obj_type),
        )
    }
}

} // verus!
