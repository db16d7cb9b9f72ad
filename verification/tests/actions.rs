use mold2d::actions::{collision_messages, create_msg, handle_collision, handle_message, run_frame};
use mold2d::Actor;
use mold2d::ActorAction;
use mold2d::ActorData;
use mold2d::ActorIndex;
use mold2d::ActorManager;
use mold2d::ActorMessage;
use mold2d::ActorPosition;
use mold2d::ActorToken;
use mold2d::ActorType;
use mold2d::Collision;
use mold2d::CollisionSide;
use mold2d::MessageType;
use mold2d::PositionChange;
use mold2d::Rect;
use mold2d::Score;
use mold2d::Spawner;
use mold2d::Viewport;
use mold2d::Window;

/// A scriptable game actor: moves when told to, records the last side it
/// was struck on, and items reply with a score-and-remove cascade.
struct TestActor {
    index: ActorIndex,
    rect: Rect,
    actor_type: ActorType,
    collision_filter: u8,
    resolves_collisions: bool,
    last_side: u8,
    echo_forever: bool,
}

impl TestActor {
    fn new(index: ActorIndex, rect: Rect, actor_type: ActorType) -> TestActor {
        TestActor {
            index,
            rect,
            actor_type,
            collision_filter: 0b1111,
            resolves_collisions: false,
            last_side: 0,
            echo_forever: false,
        }
    }
}

impl Actor for TestActor {
    type Type = ActorType;
    type Message = ActorMessage;
    type Context = ();

    fn handle_message(&mut self, message: &ActorMessage) -> ActorMessage {
        if self.echo_forever {
            // A misbehaving actor: replies to every message with another
            // message addressed to itself.
            return ActorMessage::ActorAction {
                send_id: self.index,
                recv_id: self.index,
                action: ActorAction::DamageActor(0),
            };
        }
        if let ActorMessage::ActorAction { ref action, .. } = *message {
            match *action {
                ActorAction::ChangePosition(ref change) => {
                    self.rect.x += change.x;
                    self.rect.y += change.y;
                    ActorMessage::Noop
                }
                ActorAction::Collision(_, side) => {
                    self.last_side = side.as_u8();
                    if self.actor_type == ActorType::Item {
                        // A picked-up item: worth five points, then gone.
                        ActorMessage::MultipleMessages(vec![
                            ActorMessage::UpdateScore(5),
                            ActorMessage::RemoveActor(self.index),
                        ])
                    } else {
                        ActorMessage::Noop
                    }
                }
                _ => ActorMessage::Noop,
            }
        } else {
            ActorMessage::Noop
        }
    }

    fn collides_with(&mut self, other: &ActorData<ActorType>) -> Option<CollisionSide> {
        self.rect.collides_with(&other.rect)
    }

    fn update(&mut self, _context: &mut (), _elapsed_ms: u32) -> PositionChange {
        PositionChange::new()
    }

    fn data(&mut self) -> ActorData<ActorType> {
        ActorData {
            index: self.index,
            state: self.last_side as u32,
            damage: 0,
            collision_filter: self.collision_filter,
            resolves_collisions: self.resolves_collisions,
            rect: self.rect,
            bounding_box: None,
            actor_type: self.actor_type,
        }
    }
}

struct TestSpawner;

impl Spawner<TestActor> for TestSpawner {
    fn spawn(&mut self, _token: ActorToken, index: ActorIndex, position: ActorPosition) -> TestActor {
        TestActor::new(index, Rect::new(position.0, position.1, 20, 20), ActorType::Enemy)
    }
}

fn world() -> (Viewport, Score, TestSpawner) {
    let window = Window {
        title: "test",
        width: 800,
        height: 600,
    };
    let viewport = Viewport::new(&window, (800, 600));
    let mut score = Score::new();
    score.add_score("GAME_SCORE");
    (viewport, score, TestSpawner)
}

fn insert(manager: &mut ActorManager<TestActor>, actor_fn: impl FnOnce(ActorIndex) -> TestActor) -> ActorIndex {
    let ni = manager.next_index();
    let index = ni.index();
    manager.add(ni, actor_fn(index));
    index
}

#[test]
fn test_collision_messages_masked_out() {
    // A neighbour whose mask excludes Bottom (a Koopa-like 1110 mask) is
    // permeable from below: the pairing produces no messages at all.
    let mover = ActorData {
        index: ActorIndex { id: 0, generation: 0 },
        state: 0,
        damage: 0,
        collision_filter: 0b1111,
        resolves_collisions: true,
        rect: Rect::new(0, 0, 20, 20),
        bounding_box: None,
        actor_type: ActorType::Player,
    };
    let koopa = ActorData {
        index: ActorIndex { id: 1, generation: 0 },
        state: 0,
        damage: 5,
        collision_filter: 0b1110,
        resolves_collisions: true,
        rect: Rect::new(0, 20, 20, 20),
        bounding_box: None,
        actor_type: ActorType::Enemy,
    };
    assert_eq!(collision_messages(&mover, &koopa, CollisionSide::Bottom), None);
}

#[test]
fn test_collision_messages_both_directions() {
    let mover = ActorData {
        index: ActorIndex { id: 3, generation: 0 },
        state: 0,
        damage: 0,
        collision_filter: 0b1111,
        resolves_collisions: true,
        rect: Rect::new(0, 0, 20, 20),
        bounding_box: None,
        actor_type: ActorType::Player,
    };
    let block = ActorData {
        index: ActorIndex { id: 7, generation: 0 },
        state: 0,
        damage: 0,
        collision_filter: 0b1111,
        resolves_collisions: false,
        rect: Rect::new(0, 20, 20, 20),
        bounding_box: None,
        actor_type: ActorType::Block,
    };
    let (to_self, to_other) = collision_messages(&mover, &block, CollisionSide::Bottom).unwrap();
    assert_eq!(
        to_self,
        ActorMessage::ActorAction {
            send_id: block.index,
            recv_id: mover.index,
            action: ActorAction::Collision(ActorType::Block, CollisionSide::Bottom),
        }
    );
    assert_eq!(
        to_other,
        ActorMessage::ActorAction {
            send_id: mover.index,
            recv_id: block.index,
            action: ActorAction::Collision(ActorType::Player, CollisionSide::Top),
        }
    );
}

#[test]
fn test_create_msg() {
    let sender = ActorData {
        index: ActorIndex { id: 2, generation: 1 },
        state: 0,
        damage: 0,
        collision_filter: 0b1111,
        resolves_collisions: false,
        rect: Rect::new(0, 0, 10, 10),
        bounding_box: None,
        actor_type: ActorType::Enemy,
    };
    let receiver = ActorData {
        index: ActorIndex { id: 5, generation: 0 },
        ..sender
    };
    let msg = create_msg(MessageType::Collision(sender, receiver, 0b0100));
    assert_eq!(
        msg,
        ActorMessage::ActorAction {
            send_id: sender.index,
            recv_id: receiver.index,
            action: ActorAction::Collision(ActorType::Enemy, CollisionSide::Right),
        }
    );
}

#[test]
fn test_dispatch_cascade_scores_and_removes() {
    let (mut viewport, mut score, mut spawner) = world();
    let mut actors: ActorManager<TestActor> = ActorManager::new();
    let player = insert(&mut actors, |i| {
        TestActor::new(i, Rect::new(0, 0, 20, 20), ActorType::Player)
    });
    let coin = insert(&mut actors, |i| {
        TestActor::new(i, Rect::new(10, 0, 20, 20), ActorType::Item)
    });

    let msg = ActorMessage::ActorAction {
        send_id: player,
        recv_id: coin,
        action: ActorAction::Collision(ActorType::Player, CollisionSide::Right),
    };
    handle_message(&mut actors, &mut viewport, &mut score, &mut spawner, &msg, 64);

    // The coin's reply cascades: score up by its value, coin removed.
    assert_eq!(score.score("GAME_SCORE"), Some(5));
    assert!(!actors.contains(coin));
    assert!(actors.contains(player));
}

#[test]
fn test_dispatch_add_and_remove() {
    let (mut viewport, mut score, mut spawner) = world();
    let mut actors: ActorManager<TestActor> = ActorManager::new();
    handle_message(
        &mut actors,
        &mut viewport,
        &mut score,
        &mut spawner,
        &ActorMessage::AddActor(ActorToken('K'), ActorPosition(30, 40)),
        64,
    );
    assert_eq!(actors.len(), 1);
    let spawned = actors.live_indexes()[0];
    let data = actors.actor_data(spawned).unwrap();
    assert_eq!((data.rect.x, data.rect.y), (30, 40));

    handle_message(
        &mut actors,
        &mut viewport,
        &mut score,
        &mut spawner,
        &ActorMessage::RemoveActor(spawned),
        64,
    );
    assert_eq!(actors.len(), 0);
}

#[test]
fn test_dispatch_set_viewport() {
    let (mut viewport, mut score, mut spawner) = world();
    let mut actors: ActorManager<TestActor> = ActorManager::new();
    handle_message(
        &mut actors,
        &mut viewport,
        &mut score,
        &mut spawner,
        &ActorMessage::SetViewport(1000, 1000),
        64,
    );
    // The camera is clamped so the view never scrolls past the map edge;
    // an 800x600 window over an 800x600 map cannot move at all.
    assert_eq!((viewport.x, viewport.y), (0, 0));
}

#[test]
fn test_dispatch_self_replying_actor_terminates() {
    let (mut viewport, mut score, mut spawner) = world();
    let mut actors: ActorManager<TestActor> = ActorManager::new();
    let looper = insert(&mut actors, |i| {
        let mut actor = TestActor::new(i, Rect::new(0, 0, 10, 10), ActorType::Enemy);
        actor.echo_forever = true;
        actor
    });
    let msg = ActorMessage::ActorAction {
        send_id: looper,
        recv_id: looper,
        action: ActorAction::DamageActor(1),
    };
    // The cascade budget cuts the self-replying chain off; if dispatch
    // did not terminate this test would hang.
    handle_message(&mut actors, &mut viewport, &mut score, &mut spawner, &msg, 64);
    assert!(actors.contains(looper));
}

#[test]
fn test_handle_collision_resolves_and_notifies() {
    let (mut viewport, mut score, mut spawner) = world();
    let mut actors: ActorManager<TestActor> = ActorManager::new();
    let mover = insert(&mut actors, |i| {
        let mut actor = TestActor::new(i, Rect::new(30, 0, 20, 20), ActorType::Player);
        actor.resolves_collisions = true;
        actor
    });
    let block = insert(&mut actors, |i| {
        TestActor::new(i, Rect::new(40, 0, 20, 20), ActorType::Block)
    });
    let block_data = actors.actor_data(block).unwrap();

    let side = actors.actor_data(mover).unwrap().rect.collides_with(&block_data.rect).unwrap();
    assert_eq!(side, CollisionSide::Right);
    handle_collision(
        &mut actors,
        mover,
        &block_data,
        side,
        &mut viewport,
        &mut score,
        &mut spawner,
    );

    // The mover was pushed left until the overlap on its right cleared.
    let moved = actors.actor_data(mover).unwrap();
    assert_eq!(moved.rect.x, 19);
    // Both parties got their collision message: the mover was struck on
    // its right, the block on its left.
    assert_eq!(moved.state, CollisionSide::Right.as_u8() as u32);
    let struck = actors.actor_data(block).unwrap();
    assert_eq!(struck.state, CollisionSide::Left.as_u8() as u32);
}

#[test]
fn test_run_frame_processes_collisions() {
    let (mut viewport, mut score, mut spawner) = world();
    let mut actors: ActorManager<TestActor> = ActorManager::new();
    let mover = insert(&mut actors, |i| {
        let mut actor = TestActor::new(i, Rect::new(30, 0, 20, 20), ActorType::Player);
        actor.resolves_collisions = true;
        actor
    });
    let block = insert(&mut actors, |i| {
        TestActor::new(i, Rect::new(40, 0, 20, 20), ActorType::Block)
    });

    run_frame(&mut actors, &mut viewport, &mut score, &mut spawner, &mut (), 16);

    let moved = actors.actor_data(mover).unwrap();
    assert_eq!(moved.state, CollisionSide::Right.as_u8() as u32);
    assert!(moved.rect.x < 30);
    let struck = actors.actor_data(block).unwrap();
    assert_eq!(struck.state, CollisionSide::Left.as_u8() as u32);
}
