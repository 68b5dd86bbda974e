//! How each kind of body is handed to the physics engine.

use vstd::prelude::*;
use crate::ball::{Ball, BALL_RADIUS};
use crate::player::Paddle;
use crate::units::Size;
use crate::world::block::Block;
use crate::world::Border;

verus! {

/// How a body takes part in the simulation.
#[derive(Debug, Clone, Copy, PartialEq, Eq, Hash, Structural)]
pub enum RigidBody {
    /// Moved by the simulation.
    Dynamic,
    /// Moved by the game, untouched by forces.
    Kinematic,
    /// Never moved.
    Static,
}

/// The shape a body collides with.
#[derive(Debug, Clone, Copy, PartialEq, Eq, Structural)]
pub enum Collider {
    Circle { radius: i64 },
    Rectangle { width: i64, height: i64 },
}

/// Everything the physics engine is told about a body. Restitution,
/// friction and the gravity scale are counted in thousandths.
#[derive(Debug, Clone, Copy, PartialEq, Eq, Structural)]
pub struct Physics {
    pub body: RigidBody,
    pub collider: Collider,
    pub restitution: u16,
    pub friction: u16,
    /// The share of gravity the body feels, where the game sets one.
    pub gravity_scale: Option<u16>,
    pub lock_rotation: bool,
    pub lock_translation_y: bool,
    /// Whether contacts of this body are reported to the game.
    pub collision_events: bool,
}

/// A rectangle of the given extent that bounces without loss and without
/// friction, and is otherwise left to the engine's defaults.
pub open spec fn elastic_box(body: RigidBody, size: Size) -> Physics {
    Physics {
        body,
        collider: Collider::Rectangle { width: size.width, height: size.height },
        restitution: 1000,
        friction: 0,
        gravity_scale: None,
        lock_rotation: false,
        lock_translation_y: false,
        collision_events: false,
    }
}

/// Computes [`elastic_box`].
pub fn get_elastic_box(body: RigidBody, size: Size) -> (physics: Physics)
    ensures
        physics == elastic_box(body, size),
{
    Physics {
        body,
        collider: Collider::Rectangle { width: size.width, height: size.height },
        restitution: 1000,
        friction: 0,
        gravity_scale: None,
        lock_rotation: false,
        lock_translation_y: false,
        collision_events: false,
    }
}

impl Ball {
    /// A ball is a dynamic circle that bounces without loss, rubs on
    /// nothing and feels no gravity.
    pub open spec fn physics_spec(&self) -> Physics {
        Physics {
            body: RigidBody::Dynamic,
            collider: Collider::Circle { radius: BALL_RADIUS },
            restitution: 1000,
            friction: 0,
            gravity_scale: Some(0u16),
            lock_rotation: false,
            lock_translation_y: false,
            collision_events: false,
        }
    }

    /// Computes [`Ball::physics_spec`].
    pub fn physics(&self) -> (physics: Physics)
        ensures
            physics == self.physics_spec(),
    {
        Physics {
            body: RigidBody::Dynamic,
            collider: Collider::Circle { radius: BALL_RADIUS },
            restitution: 1000,
            friction: 0,
            gravity_scale: Some(0),
            lock_rotation: false,
            lock_translation_y: false,
            collision_events: false,
        }
    }
}

impl Paddle {
    /// A paddle is a kinematic box of its size that neither turns nor moves
    /// up or down.
    pub open spec fn physics_spec(&self) -> Physics {
        Physics {
            lock_rotation: true,
            lock_translation_y: true,
            ..elastic_box(RigidBody::Kinematic, self.size)
        }
    }

    /// Computes [`Paddle::physics_spec`].
    pub fn physics(&self) -> (physics: Physics)
        ensures
            physics == self.physics_spec(),
    {
        let mut physics = get_elastic_box(RigidBody::Kinematic, self.size);
        physics.lock_rotation = true;
        physics.lock_translation_y = true;
        physics
    }
}

impl Border {
    /// A wall is a static box of its size.
    pub open spec fn physics_spec(&self) -> Physics {
        elastic_box(RigidBody::Static, self.size)
    }

    /// Computes [`Border::physics_spec`].
    pub fn physics(&self) -> (physics: Physics)
        ensures
            physics == self.physics_spec(),
    {
        get_elastic_box(RigidBody::Static, self.size)
    }
}

impl Block {
    /// A brick is a static box of its size whose contacts are reported.
    pub open spec fn physics_spec(&self) -> Physics {
        Physics { collision_events: true, ..elastic_box(RigidBody::Static, self.size) }
    }

    /// Computes [`Block::physics_spec`].
    pub fn physics(&self) -> (physics: Physics)
        ensures
            physics == self.physics_spec(),
    {
        let mut physics = get_elastic_box(RigidBody::Static, self.size);
        physics.collision_events = true;
        physics
    }
}

} // verus!
