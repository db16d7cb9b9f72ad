use vstd::prelude::*;

pub mod actions;
pub mod actor_manager;
pub mod collision;
pub mod keyboard_mappings;
pub mod quadtree;
pub mod score;
pub mod sprite;
pub mod vector;
pub mod viewport;

pub use crate::actions::{ActorAction, ActorMessage, ActorType, MessageType, Spawner};
pub use crate::actor_manager::{ActorIndex, ActorManager, ActorPosition, ActorToken, NextIndex};
pub use crate::collision::{BoundingBox, Collision, CollisionSide, Rect};
pub use crate::sprite::{AnimationData, Direction, SpriteRectangle, SpritesheetConfig};
pub use crate::keyboard_mappings::KeyboardMappings;
pub use crate::quadtree::Quadtree;
pub use crate::score::Score;
pub use crate::vector::PositionChange;
pub use crate::viewport::Viewport;

verus! {

/// Static description of the game window.
pub struct Window {
    pub title: &'static str,
    pub width: u32,
    pub height: u32,
}

/// The data contained in an actor: an immutable point-in-time snapshot of
/// everything the collision machinery needs to know about one live object.
#[derive(Clone, Copy, PartialEq)]
pub struct ActorData<Type> {
    /// The index of the actor given by the actor manager.
    pub index: ActorIndex,
    /// The current state of the actor as a number.
    pub state: u32,
    /// The damage that the actor has taken so far.
    pub damage: i32,
    /// A byte that contains the sides that other actors can collide into.
    pub collision_filter: u8,
    /// If true, on collision the actor is moved away from the collision.
    pub resolves_collisions: bool,
    /// The sprite rectangle.
    pub rect: Rect,
    /// The current bounding box for the actor.
    pub bounding_box: Option<BoundingBox>,
    /// The type of the actor.
    pub actor_type: Type,
}

/// A game object that supports sending and receiving messages.
///
/// Entity behaviour is an opaque capability of the game: none of these
/// methods carries a contract, so everything the crate proves holds for
/// every implementation.
pub trait Actor {
    type Type;
    type Message;
    type Context;

    /// Handle a message sent by another actor and produce a reply.
    fn handle_message(&mut self, message: &Self::Message) -> Self::Message;

    /// Returns the side of the collision if this actor collides with the
    /// other actor's snapshot.
    fn collides_with(&mut self, other_actor: &ActorData<Self::Type>) -> Option<CollisionSide>;

    /// Called every frame to update an actor; the returned change is the
    /// motion the actor intends (and has already applied to itself).
    fn update(&mut self, context: &mut Self::Context, elapsed_ms: u32) -> PositionChange;

    /// Gets a snapshot of the actor's data.
    fn data(&mut self) -> ActorData<Self::Type>;
}

} // verus!
