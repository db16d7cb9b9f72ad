use mold2d::ActorData;
use mold2d::ActorIndex;
use mold2d::ActorType;
use mold2d::Quadtree;
use mold2d::Rect;
use mold2d::Viewport;
use mold2d::Window;

fn window() -> Window {
    Window {
        title: "test",
        width: 800,
        height: 600,
    }
}

fn snapshot(id: usize, rect: Rect) -> ActorData<ActorType> {
    ActorData {
        index: ActorIndex { id, generation: 0 },
        state: 0,
        damage: 0,
        collision_filter: 0b1111,
        resolves_collisions: false,
        rect,
        bounding_box: None,
        actor_type: ActorType::Item,
    }
}

fn contains(found: &[ActorData<ActorType>], id: usize) -> bool {
    found.iter().any(|o| o.index.id == id)
}

#[test]
fn test_retrieve_finds_overlapping_neighbor() {
    let viewport = Viewport::new(&window(), (800, 600));
    let mut tree: Quadtree<ActorType> = Quadtree::new(Rect::new(0, 0, 800, 600), &viewport);

    let a = snapshot(1, Rect::new(10, 10, 50, 50));
    let b = snapshot(2, Rect::new(40, 40, 50, 50));
    tree.insert(a);
    tree.insert(b);

    let found = tree.retrieve(&a.rect);
    assert!(contains(&found, 2));
}

#[test]
fn test_retrieve_complete_under_splits() {
    let viewport = Viewport::new(&window(), (800, 600));
    let mut tree: Quadtree<ActorType> = Quadtree::new(Rect::new(0, 0, 800, 600), &viewport);

    // Enough snapshots to force several splits.
    let mut id = 10;
    for gx in 0..8 {
        for gy in 0..6 {
            tree.insert(snapshot(id, Rect::new(gx * 100 + 5, gy * 100 + 5, 30, 30)));
            id += 1;
        }
    }
    let probe = snapshot(1, Rect::new(420, 320, 60, 60));
    let neighbor = snapshot(2, Rect::new(440, 340, 30, 30));
    tree.insert(probe);
    tree.insert(neighbor);

    // Whatever the split depth, an overlapping snapshot is never missed.
    let found = tree.retrieve(&probe.rect);
    assert!(contains(&found, 2));
}

#[test]
fn test_straddling_query_sees_all_quadrants() {
    let viewport = Viewport::new(&window(), (800, 600));
    let mut tree: Quadtree<ActorType> = Quadtree::new(Rect::new(0, 0, 800, 600), &viewport);

    for id in 0..8 {
        let x = (id as i32) * 90 + 10;
        tree.insert(snapshot(id, Rect::new(x, 10, 40, 40)));
    }
    // A rectangle across the vertical midline overlaps entries on both
    // sides; both must be returned.
    let straddler = snapshot(100, Rect::new(350, 5, 120, 50));
    tree.insert(straddler);
    let found = tree.retrieve(&straddler.rect);
    assert!(contains(&found, 3));
    assert!(contains(&found, 4));
}

#[test]
fn test_query_excludes_its_own_rectangle() {
    let viewport = Viewport::new(&window(), (800, 600));
    let mut tree: Quadtree<ActorType> = Quadtree::new(Rect::new(0, 0, 800, 600), &viewport);
    let a = snapshot(1, Rect::new(10, 10, 50, 50));
    tree.insert(a);
    let found = tree.retrieve(&a.rect);
    assert!(!contains(&found, 1));
}

#[test]
fn test_offscreen_snapshot_is_discarded() {
    let viewport = Viewport::new(&window(), (4000, 4000));
    let mut tree: Quadtree<ActorType> = Quadtree::new(Rect::new(0, 0, 800, 600), &viewport);
    // Centre far outside the camera-visible region: not indexed at all.
    tree.insert(snapshot(1, Rect::new(2000, 2000, 40, 40)));
    assert_eq!(tree.len(), 0);
    assert!(tree.is_empty());
    // An on-screen one stays.
    tree.insert(snapshot(2, Rect::new(10, 10, 40, 40)));
    assert_eq!(tree.len(), 1);
    assert!(!tree.is_empty());
}
