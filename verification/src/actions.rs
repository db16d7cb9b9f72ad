//! Collision resolution and the message dispatch protocol.
//!
//! Once per frame, [`run_frame`] walks the live actors in slot order,
//! snapshots and updates each visible, collision-enabled, non-block actor,
//! queries the quadtree for nearby snapshots, classifies overlaps, pushes
//! the moving actor out of the overlap, and delivers the resulting tagged
//! messages through the entity store.  Dispatch is recursive: an actor's
//! reply to a message is itself dispatched, so one collision can cascade
//! into damage, removal and score changes without the caller knowing the
//! cascade in advance.  The recursion carries an explicit cascade budget,
//! so a misbehaving actor that keeps replying to itself is cut off rather
//! than looping forever; each dispatch therefore provably terminates.
use vstd::prelude::*;
use crate::Actor;
use crate::ActorData;
use crate::actor_manager::{ActorIndex, ActorManager, ActorPosition, ActorToken};
use crate::collision::{flip_side, side_mask, CollisionSide, Rect};
use crate::quadtree::Quadtree;
use crate::score::Score;
use crate::vector::PositionChange;
use crate::viewport::Viewport;

verus! {

/// How many recursive replies one dispatched message may trigger before
/// the cascade is cut off.  Well-behaved cascades are short ("enemy takes
/// damage, enemy removed, score incremented" is three links); the bound
/// only defends against an actor that keeps replying to itself.
const CASCADE_LIMIT: u32 = 64;

/// Actions for an actor to process.
#[derive(Clone, Debug, PartialEq)]
pub enum ActorAction {
    /// Deal damage to the receiving actor.
    DamageActor(i32),
    /// Move the receiving actor.
    ChangePosition(PositionChange),
    /// The receiving actor was struck on the given side by an actor of
    /// the given type.
    Collision(ActorType, CollisionSide),
    /// Ask the receiving actor whether it can be bounced on.
    CanBounce,
    /// The answer to [`ActorAction::CanBounce`].
    Bounce(bool),
}

/// Actor messages: everything the dispatch protocol can be asked to do.
#[derive(Debug, PartialEq)]
pub enum ActorMessage {
    /// Spawn a new actor of the kind named by the token at a position.
    AddActor(ActorToken, ActorPosition),
    /// Remove the actor behind the handle; stale handles no-op.
    RemoveActor(ActorIndex),
    /// Re-centre the camera.
    SetViewport(i32, i32),
    /// A directed action from one actor to another.
    ActorAction { send_id: ActorIndex, recv_id: ActorIndex, action: ActorAction },
    /// An ordered batch of messages, dispatched first to last.
    MultipleMessages(Vec<ActorMessage>),
    /// The player was defeated; the frame driver decides what that means.
    PlayerDied,
    /// Add to the game score.
    UpdateScore(i32),
    /// Nothing; every cascade ends here.
    Noop,
}

/// Actor types: the closed set of categories the protocol distinguishes.
#[derive(Clone, Copy, Debug, PartialEq, Eq, Structural)]
pub enum ActorType {
    Item,
    Block,
    Player,
    Enemy,
}

/// What the collision machinery wants to say, before it is addressed:
/// either a collision between a sender and a receiver snapshot with the
/// masked side byte, or a positional nudge for one actor.
pub enum MessageType {
    Collision(ActorData<ActorType>, ActorData<ActorType>, u8),
    ChangePosition(ActorIndex, PositionChange),
}

/// The single side whose bit mask is `mask` (meaningful only for
/// single-bit masks).
pub open spec fn side_of_mask(mask: u8) -> CollisionSide {
    if mask == 0b1000 {
        CollisionSide::Left
    } else if mask == 0b0100 {
        CollisionSide::Right
    } else if mask == 0b0010 {
        CollisionSide::Top
    } else {
        CollisionSide::Bottom
    }
}

/// The addressed actor message a [`MessageType`] denotes.
pub open spec fn spec_create_msg(message: MessageType) -> ActorMessage {
    match message {
        MessageType::Collision(sender, receiver, direction) => ActorMessage::ActorAction {
            send_id: sender.index,
            recv_id: receiver.index,
            action: ActorAction::Collision(sender.actor_type, side_of_mask(direction)),
        },
        MessageType::ChangePosition(id, change) => ActorMessage::ActorAction {
            send_id: id,
            recv_id: id,
            action: ActorAction::ChangePosition(change),
        },
    }
}

/// Turns an unaddressed collision or nudge into an actor message.
pub fn create_msg(message: MessageType) -> (r: ActorMessage)
    requires
        (message matches MessageType::Collision(_, _, d) ==> d == 0b1000 || d == 0b0100 || d
            == 0b0010 || d == 0b0001),
    ensures
        r == spec_create_msg(message),
{
    match message {
        MessageType::Collision(sender, receiver, direction) => {
            let side = CollisionSide::from_u8(direction);
            proof {
                assert(side == side_of_mask(direction));
            }
            ActorMessage::ActorAction {
                send_id: sender.index,
                recv_id: receiver.index,
                action: ActorAction::Collision(sender.actor_type, side),
            }
        },
        MessageType::ChangePosition(id, change) => ActorMessage::ActorAction {
            send_id: id,
            recv_id: id,
            action: ActorAction::ChangePosition(change),
        },
    }
}

/// The pair of messages one detected collision produces, if any: the
/// detected side is masked through the neighbour's collision filter, and
/// a masked side of zero (the neighbour is permeable from that side)
/// produces no messages at all.  Otherwise the moving actor is told it
/// struck an actor of the neighbour's type on the detected side, and the
/// neighbour is told the same collision from its own point of view, on
/// the reversed side.
pub open spec fn spec_collision_messages(
    data: ActorData<ActorType>,
    other: ActorData<ActorType>,
    direction: CollisionSide,
) -> Option<(ActorMessage, ActorMessage)> {
    let masked = side_mask(direction) & other.collision_filter;
    if masked == 0 {
        None
    } else {
        Some(
            (
                ActorMessage::ActorAction {
                    send_id: other.index,
                    recv_id: data.index,
                    action: ActorAction::Collision(other.actor_type, direction),
                },
                ActorMessage::ActorAction {
                    send_id: data.index,
                    recv_id: other.index,
                    action: ActorAction::Collision(data.actor_type, flip_side(direction)),
                },
            ),
        )
    }
}

/// Builds the message pair for one detected collision; None when the
/// neighbour's mask makes it permeable from the detected side.
pub fn collision_messages(
    data: &ActorData<ActorType>,
    other: &ActorData<ActorType>,
    direction: CollisionSide,
) -> (r: Option<(ActorMessage, ActorMessage)>)
    ensures
        r == spec_collision_messages(*data, *other, direction),
{
    let mask = direction.as_u8();
    let masked = mask & other.collision_filter;
    if masked == 0 {
        None
    } else {
        proof {
            let f = other.collision_filter;
            assert((mask == 1 || mask == 2 || mask == 4 || mask == 8) && mask & f != 0 ==> mask
                & f == mask) by (bit_vector);
            crate::collision::lemma_reverse_flip(direction);
        }
        let rev = CollisionSide::reverse_u8(masked);
        let side = CollisionSide::from_u8(masked);
        let rev_side = CollisionSide::from_u8(rev);
        proof {
            assert(side == direction);
            assert(rev_side == flip_side(direction));
        }
        Some(
            (
                ActorMessage::ActorAction {
                    send_id: other.index,
                    recv_id: data.index,
                    action: ActorAction::Collision(other.actor_type, side),
                },
                ActorMessage::ActorAction {
                    send_id: data.index,
                    recv_id: other.index,
                    action: ActorAction::Collision(data.actor_type, rev_side),
                },
            ),
        )
    }
}

/// The factory collaborator that constructs a new actor for a token;
/// sprites, assets and everything else about construction live entirely
/// behind it.
pub trait Spawner<A> {
    /// Builds the actor that a level token names, already knowing the
    /// handle it will live under.
    fn spawn(&mut self, token: ActorToken, index: ActorIndex, position: ActorPosition) -> A;
}

/// Dispatches one actor message: performs what it asks of the store, the
/// camera or the score, and for a directed action delivers it to the
/// receiver and recursively dispatches the receiver's reply until a
/// `Noop` (or the cascade budget) ends the chain.  Whatever the actors
/// do, the store invariant holds afterwards, the generation counter never
/// decreases, and every already-dead handle stays dead.
pub fn handle_message<A, S>(
    actors: &mut ActorManager<A>,
    viewport: &mut Viewport,
    score: &mut Score,
    spawner: &mut S,
    action: &ActorMessage,
    fuel: u32,
) where A: Actor<Type = ActorType, Message = ActorMessage>, S: Spawner<A>
    requires
        old(actors).wf(),
        old(viewport).wf(),
        old(score).wf(),
    ensures
        final(actors).wf(),
        final(viewport).wf(),
        final(score).wf(),
        final(actors).spec_generation() >= old(actors).spec_generation(),
        forall|h: ActorIndex| old(actors).stale(h) ==> final(actors).stale(h),
        final(viewport).window_dimensions == old(viewport).window_dimensions,
        final(viewport).map_dimensions == old(viewport).map_dimensions,
        old(viewport).camera_in_range() ==> final(viewport).camera_in_range(),
        // What each of the non-recursive requests does exactly.
        (match *action {
            ActorMessage::AddActor(_, _) => {
                &&& *final(viewport) == *old(viewport)
                &&& final(score)@ == old(score)@
                &&& (old(actors).can_reserve() ==> final(actors).num_live() == old(
                    actors,
                ).num_live() + 1)
            },
            ActorMessage::RemoveActor(id) => {
                &&& *final(viewport) == *old(viewport)
                &&& final(score)@ == old(score)@
                &&& !final(actors).live(id)
                &&& (!old(actors).live(id) ==> *final(actors) == *old(actors))
            },
            ActorMessage::SetViewport(x, y) => {
                &&& *final(actors) == *old(actors)
                &&& final(score)@ == old(score)@
                &&& final(viewport).x == crate::viewport::spec_viewport_point(
                    x as int,
                    old(viewport).window_dimensions.0 as int,
                    old(viewport).map_dimensions.0 as int,
                )
                &&& final(viewport).y == crate::viewport::spec_viewport_point(
                    y as int,
                    old(viewport).window_dimensions.1 as int,
                    old(viewport).map_dimensions.1 as int,
                )
            },
            ActorMessage::UpdateScore(amount) => {
                &&& *final(actors) == *old(actors)
                &&& *final(viewport) == *old(viewport)
                &&& ({
                    let name = "GAME_SCORE"@;
                    let fits = i64::MIN <= old(score)@[name] + amount <= i64::MAX;
                    if old(score)@.contains_key(name) && fits {
                        final(score)@ == old(score)@.insert(name, old(score)@[name] + amount)
                    } else {
                        final(score)@ == old(score)@
                    }
                })
            },
            ActorMessage::PlayerDied => {
                &&& *final(actors) == *old(actors)
                &&& *final(viewport) == *old(viewport)
                &&& final(score)@ == old(score)@
            },
            ActorMessage::Noop => {
                &&& *final(actors) == *old(actors)
                &&& *final(viewport) == *old(viewport)
                &&& final(score)@ == old(score)@
            },
            _ => true,
        }),
    decreases fuel, *action,
{
    match action {
        ActorMessage::AddActor(token, pos) => {
            if actors.has_free_capacity() {
                let next_index = actors.next_index();
                let actor = spawner.spawn(*token, next_index.index(), *pos);
                actors.add(next_index, actor);
            }
        },
        ActorMessage::RemoveActor(id) => {
            actors.remove(*id);
        },
        ActorMessage::SetViewport(x, y) => {
            viewport.set_position((*x, *y));
        },
        ActorMessage::UpdateScore(amount) => {
            score.increment_score("GAME_SCORE", *amount);
        },
        ActorMessage::MultipleMessages(messages) => {
            let mut i: usize = 0;
            while i < messages.len()
                invariant
                    *action == ActorMessage::MultipleMessages(*messages),
                    actors.wf(),
                    viewport.wf(),
                    score.wf(),
                    actors.spec_generation() >= old(actors).spec_generation(),
                    forall|h: ActorIndex| old(actors).stale(h) ==> actors.stale(h),
                    viewport.window_dimensions == old(viewport).window_dimensions,
                    viewport.map_dimensions == old(viewport).map_dimensions,
                    old(viewport).camera_in_range() ==> viewport.camera_in_range(),
                decreases messages@.len() - i,
            {
                proof {
                    assert(decreases_to!(*action => action->MultipleMessages_0));
                    assert(action->MultipleMessages_0 == *messages);
                    assert(decreases_to!(*messages => messages@));
                    assert(decreases_to!(messages@ => messages@[i as int]));
                    assert(decreases_to!(*action => messages@[i as int]));
                }
                handle_message(actors, viewport, score, spawner, &messages[i], fuel);
                i = i + 1;
            }
        },
        ActorMessage::ActorAction { recv_id, .. } => {
            let response = actors.apply_message(*recv_id, action, ActorMessage::Noop);
            if fuel > 0 {
                handle_message(actors, viewport, score, spawner, &response, fuel - 1);
            }
        },
        ActorMessage::PlayerDied => {},
        ActorMessage::Noop => {},
    }
}

/// Moves a collided actor away from the overlap and sends collision
/// messages to both of the collided actors.
///
/// If the moving actor resolves collisions, it is nudged one unit away
/// from the overlap, re-testing after each unit step, until the overlap
/// on that side clears; the step budget derived from the two shapes'
/// sizes bounds the loop even against a misbehaving collision test.  A
/// bottom-side resolution pushes one extra unit down afterwards as a
/// grounding correction.  The detected side is then masked through the
/// neighbour's filter and, if anything remains, both resulting messages
/// are dispatched in full.
pub fn handle_collision<A, S>(
    actors: &mut ActorManager<A>,
    actor_id: ActorIndex,
    other: &ActorData<ActorType>,
    direction: CollisionSide,
    viewport: &mut Viewport,
    score: &mut Score,
    spawner: &mut S,
) where A: Actor<Type = ActorType, Message = ActorMessage>, S: Spawner<A>
    requires
        old(actors).wf(),
        old(viewport).wf(),
        old(score).wf(),
    ensures
        final(actors).wf(),
        final(viewport).wf(),
        final(score).wf(),
        final(actors).spec_generation() >= old(actors).spec_generation(),
        forall|h: ActorIndex| old(actors).stale(h) ==> final(actors).stale(h),
        final(viewport).window_dimensions == old(viewport).window_dimensions,
        final(viewport).map_dimensions == old(viewport).map_dimensions,
        old(viewport).camera_in_range() ==> final(viewport).camera_in_range(),
{
    let data = match actors.actor_data(actor_id) {
        Some(data) => data,
        None => {
            return ;
        },
    };
    if data.resolves_collisions {
        let mut budget: u64 = data.rect.w as u64 + data.rect.h as u64 + other.rect.w as u64
            + other.rect.h as u64 + 2;
        let mut going = true;
        while going
            invariant
                actors.wf(),
                actors.spec_generation() >= old(actors).spec_generation(),
                forall|h: ActorIndex| old(actors).stale(h) ==> actors.stale(h),
            decreases budget, (if going {
                1int
            } else {
                0int
            }),
        {
            let still_colliding = match actors.actor_collides_with(actor_id, other) {
                Some(side) => side == direction,
                None => false,
            };
            if still_colliding && budget > 0 {
                let change = match direction {
                    CollisionSide::Top => PositionChange::new().down(1),
                    CollisionSide::Bottom => PositionChange::new().up(1),
                    CollisionSide::Left => PositionChange::new().right(1),
                    CollisionSide::Right => PositionChange::new().left(1),
                };
                let nudge = create_msg(MessageType::ChangePosition(actor_id, change));
                let _ = actors.apply_message(actor_id, &nudge, ActorMessage::Noop);
                budget = budget - 1;
            } else {
                going = false;
            }
        }
        if matches!(direction, CollisionSide::Bottom) {
            let down_change = PositionChange::new().down(1);
            let nudge = create_msg(MessageType::ChangePosition(actor_id, down_change));
            let _ = actors.apply_message(actor_id, &nudge, ActorMessage::Noop);
        }
    }

    match collision_messages(&data, other, direction) {
        Some(msgs) => {
            let (to_self, to_other) = msgs;
            handle_message(actors, viewport, score, spawner, &to_self, CASCADE_LIMIT);
            handle_message(actors, viewport, score, spawner, &to_other, CASCADE_LIMIT);
        },
        None => {},
    }
}

/// Runs one frame of the collision resolution protocol.
///
/// The quadtree is rebuilt from snapshots of every live actor whose
/// centre the camera can see, rooted at the camera's world rectangle.
/// Then the live actors are processed in slot order: each visible actor
/// with a non-zero collision mask that is not a block is snapshotted,
/// updated (the update applies the actor's own motion), re-snapshotted,
/// and tested against every nearby snapshot; each detected collision is
/// resolved and its messages fully dispatched, cascades included, before
/// the next actor begins.
pub fn run_frame<A, S>(
    actors: &mut ActorManager<A>,
    viewport: &mut Viewport,
    score: &mut Score,
    spawner: &mut S,
    context: &mut A::Context,
    elapsed_ms: u32,
) where A: Actor<Type = ActorType, Message = ActorMessage>, S: Spawner<A>
    requires
        old(actors).wf(),
        old(viewport).wf(),
        old(score).wf(),
        old(viewport).camera_in_range(),
    ensures
        final(actors).wf(),
        final(viewport).wf(),
        final(score).wf(),
        final(actors).spec_generation() >= old(actors).spec_generation(),
        forall|h: ActorIndex| old(actors).stale(h) ==> final(actors).stale(h),
        final(viewport).window_dimensions == old(viewport).window_dimensions,
        final(viewport).map_dimensions == old(viewport).map_dimensions,
        final(viewport).camera_in_range(),
{
    let root = Rect {
        x: viewport.x,
        y: viewport.y,
        w: viewport.window_dimensions.0 as u32,
        h: viewport.window_dimensions.1 as u32,
    };
    let mut quadtree: Quadtree<ActorType> = Quadtree::new(root, viewport);
    let keys = actors.live_indexes();

    let mut i: usize = 0;
    while i < keys.len()
        invariant
            actors.wf(),
            quadtree.wf(),
            quadtree.contents().len() <= i,
            i <= keys@.len(),
            actors.spec_generation() >= old(actors).spec_generation(),
            forall|h: ActorIndex| old(actors).stale(h) ==> actors.stale(h),
        decreases keys@.len() - i,
    {
        match actors.actor_data(keys[i]) {
            Some(data) => {
                quadtree.insert(data);
            },
            None => {},
        }
        i = i + 1;
    }

    let mut i: usize = 0;
    while i < keys.len()
        invariant
            actors.wf(),
            viewport.wf(),
            score.wf(),
            quadtree.wf(),
            i <= keys@.len(),
            actors.spec_generation() >= old(actors).spec_generation(),
            forall|h: ActorIndex| old(actors).stale(h) ==> actors.stale(h),
            viewport.window_dimensions == old(viewport).window_dimensions,
            viewport.map_dimensions == old(viewport).map_dimensions,
            viewport.camera_in_range(),
        decreases keys@.len() - i,
    {
        let key = keys[i];
        match actors.actor_data(key) {
            Some(data) => {
                let visible = {
                    let cx_doubled: i64 = 2 * (data.rect.x as i64) + (data.rect.w as i64);
                    let cy_doubled: i64 = 2 * (data.rect.y as i64) + (data.rect.h as i64);
                    let cx: i64 = if cx_doubled >= 0 {
                        ((cx_doubled as u64) / 2) as i64
                    } else {
                        -((((-cx_doubled) as u64) / 2) as i64)
                    };
                    let cy: i64 = if cy_doubled >= 0 {
                        ((cy_doubled as u64) / 2) as i64
                    } else {
                        -((((-cy_doubled) as u64) / 2) as i64)
                    };
                    viewport.in_viewport_wide(cx, cy)
                };
                let block = matches!(data.actor_type, ActorType::Block);
                if visible && data.collision_filter != 0 && !block {
                    let _intended = actors.update_actor(key, context, elapsed_ms);
                    match actors.actor_data(key) {
                        Some(moved) => {
                            let candidates = quadtree.retrieve(&moved.rect);
                            let mut j: usize = 0;
                            while j < candidates.len()
                                invariant
                                    actors.wf(),
                                    viewport.wf(),
                                    score.wf(),
                                    j <= candidates@.len(),
                                    actors.spec_generation() >= old(
                                        actors,
                                    ).spec_generation(),
                                    forall|h: ActorIndex|
                                        old(actors).stale(h) ==> actors.stale(h),
                                    viewport.window_dimensions == old(
                                        viewport,
                                    ).window_dimensions,
                                    viewport.map_dimensions == old(viewport).map_dimensions,
                                    viewport.camera_in_range(),
                                decreases candidates@.len() - j,
                            {
                                let other = candidates[j];
                                match actors.actor_collides_with(key, &other) {
                                    Some(side) => {
                                        handle_collision(
                                            actors,
                                            key,
                                            &other,
                                            side,
                                            viewport,
                                            score,
                                            spawner,
                                        );
                                    },
                                    None => {},
                                }
                                j = j + 1;
                            }
                        },
                        None => {},
                    }
                }
            },
            None => {},
        }
        i = i + 1;
    }
}

} // verus!
