use mold2d::Actor;
use mold2d::ActorData;
use mold2d::ActorIndex;
use mold2d::ActorManager;
use mold2d::CollisionSide;
use mold2d::PositionChange;
use mold2d::Rect;

#[derive(Debug, Clone, PartialEq)]
struct TestActor(ActorIndex);

impl Actor for TestActor {
    type Type = ();
    type Message = ();
    type Context = ();

    fn handle_message(&mut self, _message: &()) -> () {
        ()
    }

    fn collides_with(&mut self, _other: &ActorData<()>) -> Option<CollisionSide> {
        None
    }

    fn update(&mut self, _context: &mut (), _elapsed_ms: u32) -> PositionChange {
        PositionChange {
            x: 0,
            y: 0,
            w: 0,
            h: 0,
        }
    }

    fn data(&mut self) -> ActorData<()> {
        ActorData {
            index: self.0,
            state: 0,
            damage: 0,
            collision_filter: 0,
            resolves_collisions: false,
            rect: Rect::new(0, 0, 0, 0),
            bounding_box: None,
            actor_type: (),
        }
    }
}

#[test]
fn test_insert_and_remove() {
    let mut manager: ActorManager<TestActor> = ActorManager::with_capacity(100);
    let mut indexes = Vec::new();
    for _ in 0..100 {
        let next_index = manager.next_index();
        let index = next_index.index();
        manager.add(next_index, TestActor(index));
        indexes.push(index);
    }

    for i in indexes.iter().take(50) {
        assert!(manager.contains(*i));
        manager.remove(*i);
        assert!(!manager.contains(*i));
    }

    for _ in 0..50 {
        let next_index = manager.next_index();
        let index = next_index.index();
        manager.add(next_index, TestActor(index));
    }

    assert_eq!(manager.len(), 100);
    assert_eq!(manager.capacity(), 100);

    let mut count = 0;
    for _ in manager.live_indexes() {
        count += 1;
    }
    assert_eq!(count, 100);
}

#[test]
fn test_stale_index() {
    let mut manager: ActorManager<TestActor> = ActorManager::new();

    let next_index = manager.next_index();
    let index = next_index.index();
    manager.add(next_index, TestActor(index));
    assert!(manager.contains(index));

    // After replacing the value, you shouldn't be able to read
    // from the old index.
    manager.remove(index);
    let next_index = manager.next_index();
    let new_index = next_index.index();
    assert_eq!(index.id, new_index.id);
    manager.add(next_index, TestActor(new_index));

    assert!(manager.contains(new_index));
    assert!(!manager.contains(index));
}

#[test]
fn test_generation_bumps_on_remove() {
    let mut manager: ActorManager<TestActor> = ActorManager::new();
    let ni = manager.next_index();
    let first = ni.index();
    manager.add(ni, TestActor(first));
    manager.remove(first);

    let ni = manager.next_index();
    let second = ni.index();
    manager.add(ni, TestActor(second));

    // The reused slot carries a strictly later generation, so the two
    // handles never both resolve.
    assert_eq!(first.id, second.id);
    assert!(second.generation > first.generation);
    assert!(manager.contains(second));
    assert!(!manager.contains(first));
}

#[test]
fn test_remove_stale_is_noop() {
    let mut manager: ActorManager<TestActor> = ActorManager::new();
    let ni = manager.next_index();
    let index = ni.index();
    manager.add(ni, TestActor(index));
    manager.remove(index);
    assert_eq!(manager.len(), 0);
    // A second removal by the same now-stale handle changes nothing.
    manager.remove(index);
    assert_eq!(manager.len(), 0);
    // Removing an out-of-range handle is just as quiet.
    manager.remove(ActorIndex {
        id: 1000,
        generation: 0,
    });
    assert_eq!(manager.len(), 0);
}

#[test]
fn test_free_list_reuses_most_recently_freed() {
    let mut manager: ActorManager<TestActor> = ActorManager::new();
    let mut indexes = Vec::new();
    for _ in 0..3 {
        let ni = manager.next_index();
        let index = ni.index();
        manager.add(ni, TestActor(index));
        indexes.push(index);
    }
    manager.remove(indexes[0]);
    manager.remove(indexes[2]);

    // Most-recently-freed-first: slot 2 comes back before slot 0.
    let ni = manager.next_index();
    let idx = ni.index();
    assert_eq!(idx.id, 2);
    manager.add(ni, TestActor(idx));
    let ni = manager.next_index();
    assert_eq!(ni.index().id, 0);
}

#[test]
fn test_live_indexes_in_slot_order() {
    let mut manager: ActorManager<TestActor> = ActorManager::new();
    for _ in 0..4 {
        let ni = manager.next_index();
        let index = ni.index();
        manager.add(ni, TestActor(index));
    }
    let ids: Vec<usize> = manager.live_indexes().iter().map(|h| h.id).collect();
    assert_eq!(ids, vec![0, 1, 2, 3]);
}

#[test]
fn test_apply_message_to_stale_returns_default() {
    let mut manager: ActorManager<TestActor> = ActorManager::new();
    let ni = manager.next_index();
    let index = ni.index();
    manager.add(ni, TestActor(index));
    manager.remove(index);
    // The default reply comes back untouched for a dead handle.
    let reply = manager.apply_message(index, &(), ());
    assert_eq!(reply, ());
}
