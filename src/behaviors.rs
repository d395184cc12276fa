//! Movement and interaction policies, dispatched by kind.

use vstd::prelude::*;
use crate::objects::{GameObject, ObjectType, Position, clamp_coord};
use crate::vectors::{EuclideanVector, collided};

verus! {

/// How a contact changes the entity that runs into something.
#[allow(non_camel_case_types)]
#[derive(Clone, Copy, Debug, PartialEq, Eq, Structural)]
pub enum ObjectInteractBehaviors {
    /// No change.
    NOTHING,
    /// Mirror the direction at the other entity's vector (see `collide_with`).
    LOSSLESS_COLLISION,
    /// Stop dead on touching a wall; anything else has no effect.
    HALT_AT_WALL,
}

/// How an entity's next position is found.
#[allow(non_camel_case_types)]
#[derive(Clone, Copy, Debug, PartialEq, Eq, Structural)]
pub enum ObjectMovementBehaviors {
    /// Stays where it is (it may still be moved from outside).
    STATIONARY,
    /// Advances by its vector's components each tick.
    MOVING,
}

/// What the interaction policy `kind` makes of `changed` after it ran into `changer`.
pub open spec fn interaction_result(
    kind: ObjectInteractBehaviors,
    changed: GameObject,
    changer: GameObject,
) -> GameObject {
    match kind {
        ObjectInteractBehaviors::NOTHING => changed,
        ObjectInteractBehaviors::LOSSLESS_COLLISION => GameObject {
            vec: collided(changed.vec, changer.vec),
            ..changed
        },
        ObjectInteractBehaviors::HALT_AT_WALL => if changer.object_type == ObjectType::WALL {
            GameObject { vec: EuclideanVector { magnitude: 0, angle: 0 }, ..changed }
        } else {
            changed
        },
    }
}

/// The position that the movement policy `kind` gives `obj` next.
pub open spec fn movement_result(kind: ObjectMovementBehaviors, obj: GameObject) -> Position {
    match kind {
        ObjectMovementBehaviors::STATIONARY => obj.pos,
        ObjectMovementBehaviors::MOVING => Position {
            x_pos: clamp_coord(obj.pos.x_pos + obj.vec.x_of()) as i64,
            y_pos: clamp_coord(obj.pos.y_pos + obj.vec.y_of()) as i64,
        },
    }
}

impl ObjectInteractBehaviors {
    pub fn nothing(the_changed: &mut GameObject, the_changer: &GameObject)
        ensures
            *final(the_changed) == *old(the_changed),
    {
    }

    pub fn lossless_collision(the_changed: &mut GameObject, the_changer: &GameObject)
        ensures
            *final(the_changed) == interaction_result(
                ObjectInteractBehaviors::LOSSLESS_COLLISION,
                *old(the_changed),
                *the_changer,
            ),
    {
        the_changed.vec.collide_with(the_changer.vec);
    }

    pub fn halt_at_wall(the_changed: &mut GameObject, the_changer: &GameObject)
        ensures
            *final(the_changed) == interaction_result(
                ObjectInteractBehaviors::HALT_AT_WALL,
                *old(the_changed),
                *the_changer,
            ),
    {
        if the_changer.object_type == ObjectType::WALL {
            the_changed.kill_velocity();
        }
    }
}

impl ObjectMovementBehaviors {
    pub fn stationary(game_object: &GameObject) -> (r: Position)
        ensures
            r == movement_result(ObjectMovementBehaviors::STATIONARY, *game_object),
    {
        game_object.pos
    }

    pub fn moving(game_object: &GameObject) -> (r: Position)
        requires
            game_object.wf(),
        ensures
            r == movement_result(ObjectMovementBehaviors::MOVING, *game_object),
            r.wf(),
    {
        let x_change = game_object.vec.x_component();
        let y_change = game_object.vec.y_component();
        let mut new_pos = game_object.pos;
        new_pos.inc_x_pos(x_change);
        new_pos.inc_y_pos(y_change);
        new_pos
    }
}

/// An interaction policy attached to an entity.
#[derive(Clone, Copy, Debug, PartialEq, Eq, Structural)]
pub struct ObjectInteractBehavior {
    pub kind: ObjectInteractBehaviors,
}

impl ObjectInteractBehavior {
    pub fn create(interact_behavior: ObjectInteractBehaviors) -> (r: ObjectInteractBehavior)
        ensures
            r.kind == interact_behavior,
    {
        ObjectInteractBehavior { kind: interact_behavior }
    }

    fn call(&self, the_changed: &mut GameObject, the_changer: &GameObject)
        ensures
            *final(the_changed) == interaction_result(self.kind, *old(the_changed), *the_changer),
    {
        match self.kind {
            ObjectInteractBehaviors::NOTHING => ObjectInteractBehaviors::nothing(
                the_changed,
                the_changer,
            ),
            ObjectInteractBehaviors::LOSSLESS_COLLISION => ObjectInteractBehaviors::lossless_collision(
                the_changed,
                the_changer,
            ),
            ObjectInteractBehaviors::HALT_AT_WALL => ObjectInteractBehaviors::halt_at_wall(
                the_changed,
                the_changer,
            ),
        }
    }
}

/// A movement policy attached to an entity.
#[derive(Clone, Copy, Debug, PartialEq, Eq, Structural)]
pub struct ObjectMovementBehavior {
    pub kind: ObjectMovementBehaviors,
}

impl ObjectMovementBehavior {
    pub fn create(movement_behavior: ObjectMovementBehaviors) -> (r: ObjectMovementBehavior)
        ensures
            r.kind == movement_behavior,
    {
        ObjectMovementBehavior::new(movement_behavior)
    }

    pub fn new(f: ObjectMovementBehaviors) -> (r: Self)
        ensures
            r.kind == f,
    {
        Self { kind: f }
    }

    fn call(&self, game_object: &GameObject) -> (r: Position)
        requires
            game_object.wf(),
        ensures
            r == movement_result(self.kind, *game_object),
            r.wf(),
    {
        match self.kind {
            ObjectMovementBehaviors::STATIONARY => ObjectMovementBehaviors::stationary(game_object),
            ObjectMovementBehaviors::MOVING => ObjectMovementBehaviors::moving(game_object),
        }
    }
}

/// The pair of policies (interaction, movement) of an entity.
#[derive(Clone, Copy, Debug, PartialEq, Eq, Structural)]
pub struct ObjectBehavior {
    pub interact_behavior: ObjectInteractBehavior,
    pub movement_behavior: ObjectMovementBehavior,
}

impl ObjectBehavior {
    pub fn new(
        interact_behavior: ObjectInteractBehavior,
        movement_behavior: ObjectMovementBehavior,
    ) -> (r: Self)
        ensures
            r.interact_behavior == interact_behavior,
            r.movement_behavior == movement_behavior,
    {
        Self { interact_behavior, movement_behavior }
    }

    /// Replaces the interaction policy.
    pub fn set_interact_behavior(&mut self, interact_behavior: ObjectInteractBehavior)
        ensures
            final(self).interact_behavior == interact_behavior,
            final(self).movement_behavior == old(self).movement_behavior,
    {
        self.interact_behavior = interact_behavior;
    }

    /// Applies this interaction policy to `the_changed`, which ran into `the_changer`.
    pub fn interact(&self, the_changed: &mut GameObject, the_changer: &GameObject)
        ensures
            *final(the_changed) == interaction_result(
                self.interact_behavior.kind,
                *old(the_changed),
                *the_changer,
            ),
    {
        self.interact_behavior.call(the_changed, the_changer)
    }

    /// The position that this movement policy gives `game_object` next.
    pub fn movement(&self, game_object: &GameObject) -> (r: Position)
        requires
            game_object.wf(),
        ensures
            r == movement_result(self.movement_behavior.kind, *game_object),
            r.wf(),
    {
        self.movement_behavior.call(game_object)
    }
}

} // verus!
