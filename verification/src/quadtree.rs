//! The spatial index: a quadtree for minimizing collision checks.
//!
//! The tree is rebuilt every frame from immutable snapshots of the actors
//! whose centre point the camera can see.  A node holds a flat list of
//! snapshots until it runs over capacity, at which point it splits into
//! four equal quadrants and pushes every snapshot that fits wholly and
//! strictly inside one quadrant down into it; snapshots that touch or
//! straddle a midline stay at the node.  Retrieval walks the quadrants a
//! query rectangle fits in and collects everything along the way, which
//! [`Quadtree::retrieve`] proves can never miss an overlapping snapshot.
use vstd::prelude::*;
use vstd::multiset::Multiset;
use crate::ActorData;
use crate::collision::{cx2, cy2, rects_overlap, Rect};
use crate::viewport::{half_toward_zero, Viewport};

verus! {

broadcast use
    vstd::seq_lib::group_to_multiset_ensures,
    vstd::multiset::group_multiset_axioms,
    vstd::multiset::group_multiset_properties,
    vstd::multiset::lemma_multiset_empty_len;

/// How many snapshots a node holds before it tries to split.
const MAX_OBJECTS: usize = 5;

/// How deep the tree may grow; nodes at this level never split.
const MAX_LEVELS: u32 = 10;

/// The four children of a split node, one per quadrant.
struct Quads<T> {
    /// Top-right quadrant.
    ne: Quadtree<T>,
    /// Top-left quadrant.
    nw: Quadtree<T>,
    /// Bottom-left quadrant.
    sw: Quadtree<T>,
    /// Bottom-right quadrant.
    se: Quadtree<T>,
}

/// A quadtree for minimizing collision checks between actors.
pub struct Quadtree<T> {
    /// The level of the current tree (0 is the root).
    level: u32,
    /// The snapshots that the current node holds.
    objects: Vec<ActorData<T>>,
    /// The four subtrees made when the node splits.
    nodes: Option<Box<Quads<T>>>,
    /// The bounds of the current tree in world space.
    bounds: Rect,
    /// The camera, used to discard snapshots whose centre is off screen.
    viewport: Viewport,
}

/// Which single quadrant of `bounds` the rectangle `r` lies wholly and
/// strictly inside: 0 top-right, 1 top-left, 2 bottom-left, 3 bottom-right.
/// A rectangle that touches a midline straddles and belongs to no quadrant.
/// All comparisons are on doubled coordinates, so half-integer midlines of
/// odd-sized bounds stay exact.
pub open spec fn quadrant_of(bounds: Rect, r: Rect) -> Option<int> {
    let vm = cx2(bounds);
    let hm = cy2(bounds);
    let in_left = 2 * r.x < vm && 2 * r.x + 2 * r.w < vm;
    let in_right = 2 * r.x > vm;
    let in_top = 2 * r.y < hm && 2 * r.y + 2 * r.h < hm;
    let in_bottom = 2 * r.y > hm;
    if in_left && in_top {
        Some(1int)
    } else if in_left && in_bottom {
        Some(2int)
    } else if in_right && in_top {
        Some(0int)
    } else if in_right && in_bottom {
        Some(3int)
    } else {
        None
    }
}

/// Two rectangles lying strictly inside different quadrants of the same
/// bounds are separated by a midline, so they cannot overlap.  This is why
/// retrieval may ignore the quadrants the query does not fit in.
pub proof fn lemma_quadrants_separate(bounds: Rect, r1: Rect, r2: Rect)
    requires
        quadrant_of(bounds, r1) is Some,
        quadrant_of(bounds, r2) is Some,
        quadrant_of(bounds, r1) != quadrant_of(bounds, r2),
    ensures
        !rects_overlap(r1, r2),
{
}

/// Whether the camera can see the centre point of a rectangle; snapshots
/// that fail this test are not worth indexing.
pub open spec fn center_visible(viewport: Viewport, r: Rect) -> bool {
    viewport.spec_in_viewport((half_toward_zero(cx2(r)), half_toward_zero(cy2(r))))
}

/// The bounds' corner coordinates stay within the machine range.
pub open spec fn bounds_ok(b: Rect) -> bool {
    &&& b.x + b.w <= i32::MAX
    &&& b.y + b.h <= i32::MAX
}

/// Decides [`quadrant_of`] for real rectangles.
fn quadrant_index(bounds: &Rect, rect: &Rect) -> (r: Option<usize>)
    ensures
        match r {
            Some(i) => i < 4 && quadrant_of(*bounds, *rect) == Some(i as int),
            None => quadrant_of(*bounds, *rect) is None,
        },
{
    let vm: i64 = 2 * (bounds.x as i64) + bounds.w as i64;
    let hm: i64 = 2 * (bounds.y as i64) + bounds.h as i64;
    let rx_min: i64 = 2 * (rect.x as i64);
    let rx_max: i64 = rx_min + 2 * (rect.w as i64);
    let ry_min: i64 = 2 * (rect.y as i64);
    let ry_max: i64 = ry_min + 2 * (rect.h as i64);

    let in_left = rx_min < vm && rx_max < vm;
    let in_right = rx_min > vm;
    let in_top = ry_min < hm && ry_max < hm;
    let in_bottom = ry_min > hm;

    if in_left && in_top {
        Some(1)
    } else if in_left && in_bottom {
        Some(2)
    } else if in_right && in_top {
        Some(0)
    } else if in_right && in_bottom {
        Some(3)
    } else {
        None
    }
}

impl<T> Quadtree<T> {
    /// Every snapshot held anywhere in this subtree.
    pub closed spec fn contents(self) -> Multiset<ActorData<T>>
        decreases self,
    {
        let own = self.objects@.to_multiset();
        match self.nodes {
            Some(q) => own.add(q.ne.contents()).add(q.nw.contents()).add(q.sw.contents()).add(
                q.se.contents(),
            ),
            None => own,
        }
    }

    /// The contents of the child for a quadrant.
    spec fn child_contents(self, i: int) -> Multiset<ActorData<T>> {
        match self.nodes {
            Some(q) => if i == 0 {
                q.ne.contents()
            } else if i == 1 {
                q.nw.contents()
            } else if i == 2 {
                q.sw.contents()
            } else {
                q.se.contents()
            },
            None => Multiset::empty(),
        }
    }

    /// The tree invariant.  Each split node keeps its children stamped one
    /// level deeper with the same camera, and every snapshot stored in the
    /// child for quadrant `i` lies wholly inside quadrant `i` of this
    /// node's bounds — the fact retrieval's completeness rests on.
    pub closed spec fn wf(self) -> bool
        decreases self,
    {
        &&& bounds_ok(self.bounds)
        &&& self.contents().len() <= usize::MAX
        &&& match self.nodes {
            Some(q) => {
                &&& self.level < MAX_LEVELS
                &&& q.ne.level == self.level + 1
                &&& q.nw.level == self.level + 1
                &&& q.sw.level == self.level + 1
                &&& q.se.level == self.level + 1
                &&& q.ne.wf()
                &&& q.nw.wf()
                &&& q.sw.wf()
                &&& q.se.wf()
                &&& (forall|o: ActorData<T>|
                    q.ne.contents().count(o) > 0 ==> quadrant_of(self.bounds, o.rect) == Some(
                        0int,
                    ))
                &&& (forall|o: ActorData<T>|
                    q.nw.contents().count(o) > 0 ==> quadrant_of(self.bounds, o.rect) == Some(
                        1int,
                    ))
                &&& (forall|o: ActorData<T>|
                    q.sw.contents().count(o) > 0 ==> quadrant_of(self.bounds, o.rect) == Some(
                        2int,
                    ))
                &&& (forall|o: ActorData<T>|
                    q.se.contents().count(o) > 0 ==> quadrant_of(self.bounds, o.rect) == Some(
                        3int,
                    ))
            },
            None => true,
        }
    }

    /// The world rectangle this tree covers.
    pub closed spec fn spec_bounds(self) -> Rect {
        self.bounds
    }

    /// The camera the tree was built for.
    pub closed spec fn spec_viewport(self) -> Viewport {
        self.viewport
    }

    pub fn new(rect: Rect, viewport: &Viewport) -> (r: Quadtree<T>)
        requires
            bounds_ok(rect),
        ensures
            r.wf(),
            r.contents() == Multiset::<ActorData<T>>::empty(),
            r.spec_bounds() == rect,
            r.spec_viewport() == *viewport,
    {
        let r = Quadtree {
            level: 0,
            objects: Vec::new(),
            bounds: rect,
            nodes: None,
            viewport: viewport.clone(),
        };
        proof {
            assert(r.contents() =~= Multiset::<ActorData<T>>::empty());
        }
        r
    }

    /// Splits the node into four equal subnodes, unless either resulting
    /// dimension would be zero, in which case nothing happens and all
    /// entries simply stay at this node.
    fn split(&mut self)
        requires
            old(self).wf(),
            old(self).nodes is None,
            old(self).level < MAX_LEVELS,
        ensures
            final(self).wf(),
            final(self).contents() == old(self).contents(),
            final(self).bounds == old(self).bounds,
            final(self).level == old(self).level,
            final(self).viewport == old(self).viewport,
            final(self).objects == old(self).objects,
    {
        let width: u32 = self.bounds.w / 2;
        let height: u32 = self.bounds.h / 2;
        let x = self.bounds.x;
        let y = self.bounds.y;

        if width > 0 && height > 0 {
            let mid_x: i32 = ((x as i64) + (width as i64)) as i32;
            let mid_y: i32 = ((y as i64) + (height as i64)) as i32;
            let level = self.level + 1;
            let ne = Quadtree {
                level,
                objects: Vec::new(),
                bounds: Rect { x: mid_x, y, w: width, h: height },
                nodes: None,
                viewport: self.viewport.clone(),
            };
            let nw = Quadtree {
                level,
                objects: Vec::new(),
                bounds: Rect { x, y, w: width, h: height },
                nodes: None,
                viewport: self.viewport.clone(),
            };
            let sw = Quadtree {
                level,
                objects: Vec::new(),
                bounds: Rect { x, y: mid_y, w: width, h: height },
                nodes: None,
                viewport: self.viewport.clone(),
            };
            let se = Quadtree {
                level,
                objects: Vec::new(),
                bounds: Rect { x: mid_x, y: mid_y, w: width, h: height },
                nodes: None,
                viewport: self.viewport.clone(),
            };
            proof {
                assert(ne.contents() =~= Multiset::<ActorData<T>>::empty());
                assert(nw.contents() =~= Multiset::<ActorData<T>>::empty());
                assert(sw.contents() =~= Multiset::<ActorData<T>>::empty());
                assert(se.contents() =~= Multiset::<ActorData<T>>::empty());
                assert(ne.wf());
                assert(nw.wf());
                assert(sw.wf());
                assert(se.wf());
            }
            self.nodes = Some(Box::new(Quads { ne, nw, sw, se }));
            proof {
                assert(self.contents() =~= old(self).contents());
            }
        }
    }

    /// Hands a snapshot that fits wholly inside quadrant `i` down to the
    /// child for that quadrant.
    fn insert_into_child(&mut self, i: usize, object: ActorData<T>)
        requires
            old(self).wf(),
            old(self).nodes is Some,
            old(self).contents().len() < usize::MAX,
            i < 4,
            quadrant_of(old(self).bounds, object.rect) == Some(i as int),
        ensures
            final(self).wf(),
            final(self).contents() == old(self).contents().insert(object),
            final(self).bounds == old(self).bounds,
            final(self).level == old(self).level,
            final(self).viewport == old(self).viewport,
            final(self).objects == old(self).objects,
            final(self).nodes is Some,
        decreases MAX_LEVELS - old(self).level, 0int,
    {
        let ghost pre = *old(self);
        match &mut self.nodes {
            Some(quads) => {
                if i == 0 {
                    quads.ne.insert_at(object);
                } else if i == 1 {
                    quads.nw.insert_at(object);
                } else if i == 2 {
                    quads.sw.insert_at(object);
                } else {
                    quads.se.insert_at(object);
                }
            },
            None => {},
        }
        proof {
            assert(self.contents() =~= pre.contents().insert(object));
        }
    }

    /// Inserts a snapshot into the subtree rooted here, assuming the
    /// visibility gate has already been passed.
    #[verifier::rlimit(100)]
    fn insert_at(&mut self, actor: ActorData<T>)
        requires
            old(self).wf(),
            old(self).contents().len() < usize::MAX,
        ensures
            final(self).wf(),
            final(self).contents() == old(self).contents().insert(actor),
            final(self).bounds == old(self).bounds,
            final(self).level == old(self).level,
            final(self).viewport == old(self).viewport,
        decreases MAX_LEVELS - old(self).level, 1int,
    {
        let ghost pre = *old(self);

        if self.nodes.is_some() {
            let quadrant = quadrant_index(&self.bounds, &actor.rect);
            if let Some(i) = quadrant {
                self.insert_into_child(i, actor);
                return ;
            }
        }
        if self.objects.len() == MAX_OBJECTS && self.level < MAX_LEVELS {
            if self.nodes.is_none() {
                self.split();
            }
            match &mut self.nodes {
                Some(_) => {},
                None => {
                    // The split was degenerate: keep everything here.
                    self.objects.push(actor);
                    proof {
                        assert(self.contents() =~= pre.contents().insert(actor));
                    }
                    return ;
                },
            }
            let ghost split_state = *self;
            let mut leftover_parent: Vec<ActorData<T>> = Vec::new();
            while self.objects.len() > 0
                invariant
                    self.wf(),
                    self.nodes is Some,
                    self.bounds == split_state.bounds,
                    self.level == split_state.level,
                    self.level == old(self).level,
                    self.viewport == split_state.viewport,
                    split_state.contents().len() < usize::MAX,
                    self.contents().add(leftover_parent@.to_multiset())
                        == split_state.contents(),
                decreases self.objects@.len(),
            {
                let ghost loop_pre = *self;
                let object = self.objects.pop().unwrap();
                proof {
                    assert(loop_pre.objects@ =~= self.objects@.push(object));
                    assert(loop_pre.contents() =~= self.contents().insert(object));
                }
                let quadrant = quadrant_index(&self.bounds, &object.rect);
                match quadrant {
                    Some(i) => {
                        self.insert_into_child(i, object);
                        proof {
                            assert(self.contents().add(leftover_parent@.to_multiset())
                                =~= split_state.contents());
                        }
                    },
                    None => {
                        leftover_parent.push(object);
                        proof {
                            assert(self.contents().add(leftover_parent@.to_multiset())
                                =~= split_state.contents());
                        }
                    },
                }
            }
            // Handle the overflowing actor also.
            let quadrant = quadrant_index(&self.bounds, &actor.rect);
            match quadrant {
                Some(i) => {
                    self.insert_into_child(i, actor);
                },
                None => {
                    leftover_parent.push(actor);
                },
            }
            let ghost leftover_ms = leftover_parent@.to_multiset();
            proof {
                assert(self.contents().add(leftover_ms) =~= pre.contents().insert(actor));
            }
            self.objects = leftover_parent;
            proof {
                assert(self.contents() =~= pre.contents().insert(actor));
            }
        } else {
            self.objects.push(actor);
            proof {
                assert(self.contents() =~= pre.contents().insert(actor));
            }
        }
    }

    /// Inserts an actor snapshot into the quadtree.  A snapshot whose
    /// centre point the camera cannot see is discarded entirely, which
    /// keeps the tree bounded to on-screen concerns.
    pub fn insert(&mut self, actor: ActorData<T>)
        requires
            old(self).wf(),
            old(self).contents().len() < usize::MAX,
        ensures
            final(self).wf(),
            final(self).contents() == (if center_visible(
                old(self).spec_viewport(),
                actor.rect,
            ) {
                old(self).contents().insert(actor)
            } else {
                old(self).contents()
            }),
            final(self).spec_bounds() == old(self).spec_bounds(),
            final(self).spec_viewport() == old(self).spec_viewport(),
    {
        let cx_doubled: i64 = 2 * (actor.rect.x as i64) + (actor.rect.w as i64);
        let cy_doubled: i64 = 2 * (actor.rect.y as i64) + (actor.rect.h as i64);
        let cx: i64 = if cx_doubled >= 0 {
            ((cx_doubled as u64) / 2) as i64
        } else {
            -((((-cx_doubled) as u64) / 2) as i64)
        };
        let cy: i64 = if cy_doubled >= 0 {
            ((cy_doubled as u64) / 2) as i64
        } else {
            -((((-cy_doubled) as u64) / 2) as i64)
        };
        if self.viewport.in_viewport_wide(cx, cy) {
            self.insert_at(actor);
        }
    }

    /// Returns all snapshots that could collide with the given rectangle:
    /// everything in the quadrants the rectangle fits in, plus every
    /// straddling snapshot along the way, minus the query's own entry.
    ///
    /// The postcondition is the index's completeness guarantee: no
    /// overlapping snapshot (other than one at exactly the query
    /// rectangle) is ever missed, regardless of split depth or insertion
    /// order.
    pub fn retrieve(&self, rect: &Rect) -> (r: Vec<ActorData<T>>) where T: Copy
        requires
            self.wf(),
        ensures
            forall|o: ActorData<T>|
                self.contents().count(o) > 0 && rects_overlap(o.rect, *rect) && o.rect != *rect
                    ==> r@.contains(o),
            forall|k: int| 0 <= k < r@.len() ==> self.contents().count(#[trigger] r@[k]) > 0,
        decreases self,
    {
        let mut retrieved_values: Vec<ActorData<T>> = Vec::new();
        match &self.nodes {
            Some(quads) => {
                match quadrant_index(&self.bounds, rect) {
                    Some(i) => {
                        let mut from_child = if i == 0 {
                            quads.ne.retrieve(rect)
                        } else if i == 1 {
                            quads.nw.retrieve(rect)
                        } else if i == 2 {
                            quads.sw.retrieve(rect)
                        } else {
                            quads.se.retrieve(rect)
                        };
                        let ghost child_found = from_child@;
                        retrieved_values.append(&mut from_child);
                        proof {
                            assert(retrieved_values@ =~= child_found);
                            assert forall|o: ActorData<T>|
                                self.contents().count(o) > 0 && rects_overlap(o.rect, *rect)
                                    && o.rect != *rect && self.objects@.to_multiset().count(o)
                                    == 0 implies retrieved_values@.contains(o) by {
                                if self.child_contents(i as int).count(o) == 0 {
                                    // The snapshot sits in another quadrant's
                                    // child, so it cannot overlap the query.
                                    assert(quadrant_of(self.bounds, o.rect) is Some);
                                    lemma_quadrants_separate(self.bounds, o.rect, *rect);
                                } else {
                                    assert(child_found.contains(o));
                                }
                            }
                        }
                    },
                    None => {
                        // The query straddles a midline: it could collide
                        // with snapshots in any quadrant.
                        let mut from_ne = quads.ne.retrieve(rect);
                        let ghost g0 = from_ne@;
                        retrieved_values.append(&mut from_ne);
                        let mut from_nw = quads.nw.retrieve(rect);
                        let ghost g1 = from_nw@;
                        retrieved_values.append(&mut from_nw);
                        let mut from_sw = quads.sw.retrieve(rect);
                        let ghost g2 = from_sw@;
                        retrieved_values.append(&mut from_sw);
                        let mut from_se = quads.se.retrieve(rect);
                        let ghost g3 = from_se@;
                        retrieved_values.append(&mut from_se);
                        proof {
                            assert(retrieved_values@ =~= g0 + g1 + g2 + g3);
                            assert forall|o: ActorData<T>|
                                self.contents().count(o) > 0 && rects_overlap(o.rect, *rect)
                                    && o.rect != *rect && self.objects@.to_multiset().count(o)
                                    == 0 implies retrieved_values@.contains(o) by {
                                let r0 = g0 + g1 + g2 + g3;
                                if g0.contains(o) {
                                    let k = choose|k: int| 0 <= k < g0.len() && g0[k] == o;
                                    assert(r0[k] == o);
                                } else if g1.contains(o) {
                                    let k = choose|k: int| 0 <= k < g1.len() && g1[k] == o;
                                    assert(r0[g0.len() + k] == o);
                                } else if g2.contains(o) {
                                    let k = choose|k: int| 0 <= k < g2.len() && g2[k] == o;
                                    assert(r0[g0.len() + g1.len() + k] == o);
                                } else {
                                    assert(g3.contains(o));
                                    let k = choose|k: int| 0 <= k < g3.len() && g3[k] == o;
                                    assert(r0[g0.len() + g1.len() + g2.len() + k] == o);
                                }
                            }
                        }
                    },
                }
            },
            None => {},
        }
        let ghost collected = retrieved_values@;
        proof {
            assert forall|k: int|
                0 <= k < collected.len() implies self.contents().count(#[trigger] collected[k])
                > 0 by {}
        }
        let mut j: usize = 0;
        while j < self.objects.len()
            invariant
                self.wf(),
                j <= self.objects@.len(),
                retrieved_values@.len() >= collected.len(),
                forall|k: int|
                    0 <= k < collected.len() ==> retrieved_values@[k] == #[trigger] collected[k],
                forall|k: int|
                    0 <= k < retrieved_values@.len() ==> self.contents().count(
                        #[trigger] retrieved_values@[k],
                    ) > 0,
                forall|m: int|
                    0 <= m < j && (#[trigger] self.objects@[m]).rect != *rect
                        ==> retrieved_values@.contains(self.objects@[m]),
            decreases self.objects@.len() - j,
        {
            let object = self.objects[j];
            if object.rect != *rect {
                let ghost before = retrieved_values@;
                retrieved_values.push(object);
                proof {
                    assert(self.objects@.contains(self.objects@[j as int]));
                    assert(retrieved_values@[before.len() as int] == object);
                    assert forall|m: int|
                        0 <= m < j + 1 && (#[trigger] self.objects@[m]).rect != *rect
                            implies retrieved_values@.contains(self.objects@[m]) by {
                        if m < j {
                            let k = choose|k: int|
                                0 <= k < before.len() && before[k] == self.objects@[m];
                            assert(retrieved_values@[k] == self.objects@[m]);
                        }
                    }
                }
            }
            j = j + 1;
        }
        proof {
            assert forall|o: ActorData<T>|
                self.contents().count(o) > 0 && rects_overlap(o.rect, *rect) && o.rect != *rect
                    implies retrieved_values@.contains(o) by {
                if self.objects@.to_multiset().count(o) > 0 {
                    let m = choose|m: int|
                        0 <= m < self.objects@.len() && self.objects@[m] == o;
                    assert(retrieved_values@.contains(self.objects@[m]));
                } else {
                    assert(collected.contains(o));
                    let k = choose|k: int| 0 <= k < collected.len() && collected[k] == o;
                    assert(retrieved_values@[k] == o);
                }
            }
        }
        retrieved_values
    }

    /// Returns the total number of snapshots in the quadtree.
    pub fn len(&self) -> (r: usize)
        requires
            self.wf(),
        ensures
            r == self.contents().len(),
        decreases self,
    {
        let mut l = self.objects.len();
        match &self.nodes {
            Some(quads) => {
                proof {
                    lemma_contents_len_parts(*self);
                }
                l = l + quads.ne.len();
                l = l + quads.nw.len();
                l = l + quads.sw.len();
                l = l + quads.se.len();
                l
            },
            None => l,
        }
    }

    pub fn is_empty(&self) -> (r: bool)
        requires
            self.wf(),
        ensures
            r == (self.contents().len() == 0),
    {
        self.len() == 0
    }
}

/// The size of a split node's contents is the sum of its own list and the
/// four children.
proof fn lemma_contents_len_parts<T>(t: Quadtree<T>)
    requires
        t.nodes is Some,
    ensures
        (match t.nodes {
            Some(q) => t.contents().len() == t.objects@.to_multiset().len()
                + q.ne.contents().len() + q.nw.contents().len() + q.sw.contents().len()
                + q.se.contents().len(),
            None => true,
        }),
{
}

} // verus!
