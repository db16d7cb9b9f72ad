//! The entity store: a generational arena that owns every live actor.
//!
//! Actors live in slots addressed by stable handles ([`ActorIndex`]); a
//! handle pairs the slot id with the generation at which the slot was
//! filled.  Removing an actor frees its slot onto an intrusive free list
//! (most-recently-freed-first reuse) and bumps the store-wide generation
//! counter, so every handle issued before the removal compares unequal to
//! whatever occupies the slot later: stale handles fail lookups instead of
//! silently resolving to the new occupant.
use vstd::prelude::*;
use crate::Actor;
use crate::ActorData;
use crate::collision::CollisionSide;
use crate::vector::PositionChange;

verus! {

/// A single character that tells the spawning collaborator which kind of
/// actor to construct.
#[derive(Debug, PartialEq, Eq, Structural, Clone, Copy)]
pub struct ActorToken(pub char);

/// A world position handed to the spawning collaborator.
#[derive(Debug, PartialEq, Eq, Structural, Clone, Copy)]
pub struct ActorPosition(pub i32, pub i32);

/// A stable handle to one logical actor: a slot id plus the generation the
/// slot was filled at.
#[derive(Debug, PartialEq, Eq, Structural, Clone, Copy)]
pub struct ActorIndex {
    pub id: usize,
    pub generation: usize,
}

/// A handle freshly reserved by [`ActorManager::next_index`] and not yet
/// inserted; it exists so that an actor can learn its own future handle
/// before the actor value is constructed.
#[derive(Debug)]
pub struct NextIndex(ActorIndex);

impl NextIndex {
    /// The reserved handle.
    pub closed spec fn spec_index(self) -> ActorIndex {
        self.0
    }

    pub fn index(&self) -> (r: ActorIndex)
        ensures
            r == self.spec_index(),
    {
        self.0
    }
}

/// One storage cell of the arena: free (linking to the next free cell) or
/// holding an actor stamped with the generation it was inserted at.
enum Slot<A> {
    Free { next_free: Option<usize> },
    Full { actor: A, generation: usize },
}

/// The number of `Full` slots in a sequence of slots.
spec fn count_full<A>(s: Seq<Slot<A>>) -> int
    decreases s.len(),
{
    if s.len() == 0 {
        0
    } else {
        count_full(s.drop_last()) + if s.last() is Full {
            1int
        } else {
            0int
        }
    }
}

proof fn lemma_count_full_bounds<A>(s: Seq<Slot<A>>)
    ensures
        0 <= count_full(s) <= s.len(),
    decreases s.len(),
{
    if s.len() > 0 {
        lemma_count_full_bounds(s.drop_last());
    }
}

proof fn lemma_count_full_update<A>(s: Seq<Slot<A>>, j: int, slot: Slot<A>)
    requires
        0 <= j < s.len(),
    ensures
        count_full(s.update(j, slot)) == count_full(s) + (if slot is Full {
            1int
        } else {
            0int
        }) - (if s[j] is Full {
            1int
        } else {
            0int
        }),
    decreases s.len(),
{
    let updated = s.update(j, slot);
    if j < s.len() - 1 {
        assert(updated.drop_last() =~= s.drop_last().update(j, slot));
        assert(updated.last() == s.last());
        lemma_count_full_update(s.drop_last(), j, slot);
    } else {
        assert(updated.drop_last() =~= s.drop_last());
    }
}

proof fn lemma_count_full_missing<A>(s: Seq<Slot<A>>, j: int)
    requires
        0 <= j < s.len(),
        s[j] is Free,
    ensures
        count_full(s) <= s.len() - 1,
    decreases s.len(),
{
    if j < s.len() - 1 {
        lemma_count_full_missing(s.drop_last(), j);
    } else {
        lemma_count_full_bounds(s.drop_last());
    }
}

proof fn lemma_count_full_pos<A>(s: Seq<Slot<A>>, j: int)
    requires
        0 <= j < s.len(),
        s[j] is Full,
    ensures
        count_full(s) >= 1,
    decreases s.len(),
{
    if j < s.len() - 1 {
        lemma_count_full_pos(s.drop_last(), j);
        lemma_count_full_bounds(s.drop_last());
    } else {
        lemma_count_full_bounds(s.drop_last());
    }
}

/// Two states with the same fields (slot for slot) satisfy the same
/// invariant and resolve the same handles.
proof fn lemma_state_eq<A>(pre: ActorManager<A>, post: ActorManager<A>)
    requires
        pre.wf(),
        post.slots@ == pre.slots@,
        post.free_top == pre.free_top,
        post.free_order@ == pre.free_order@,
        post.generation == pre.generation,
        post.size == pre.size,
    ensures
        post.wf(),
        forall|h: ActorIndex| post.live(h) == pre.live(h),
        forall|h: ActorIndex| pre.live(h) ==> post.actor_at(h) == pre.actor_at(h),
        forall|h: ActorIndex| pre.stale(h) ==> post.stale(h),
{
}

/// Letting the actor in one full slot act on itself (the stamp, the other
/// slots and the bookkeeping fields untouched) preserves the invariant and
/// the resolution of every handle.
proof fn lemma_wf_after_actor_touch<A>(pre: ActorManager<A>, post: ActorManager<A>, i: int)
    requires
        pre.wf(),
        0 <= i < pre.slots@.len(),
        post.slots@.len() == pre.slots@.len(),
        forall|j: int|
            0 <= j < pre.slots@.len() && j != i ==> post.slots@[j] == pre.slots@[j],
        pre.slots@[i] is Full,
        post.slots@[i] is Full,
        (match (pre.slots@[i], post.slots@[i]) {
            (Slot::Full { generation: g0, .. }, Slot::Full { generation: g1, .. }) => g0 == g1,
            _ => false,
        }),
        post.free_top == pre.free_top,
        post.free_order@ == pre.free_order@,
        post.generation == pre.generation,
        post.size == pre.size,
    ensures
        post.wf(),
        forall|h: ActorIndex| post.live(h) == pre.live(h),
        forall|h: ActorIndex| h.id != i && pre.live(h) ==> post.actor_at(h) == pre.actor_at(h),
        forall|h: ActorIndex| pre.stale(h) ==> post.stale(h),
{
    lemma_count_full_update(pre.slots@, i, post.slots@[i]);
    assert(pre.slots@.update(i, post.slots@[i]) =~= post.slots@);
}

/// Manages all the actors for the game, addressing them by stable handles.
pub struct ActorManager<A> {
    slots: Vec<Slot<A>>,
    free_top: Option<usize>,
    generation: usize,
    size: usize,
    /// The free slots in reuse order: head first.
    free_order: Ghost<Seq<usize>>,
}

impl<A> ActorManager<A> {
    /// The store-wide generation counter: bumped on every removal.
    pub closed spec fn spec_generation(self) -> nat {
        self.generation as nat
    }

    /// How many slots the arena has ever allocated.
    pub closed spec fn num_slots(self) -> nat {
        self.slots@.len()
    }

    /// How many actors are currently live.
    pub closed spec fn num_live(self) -> nat {
        self.size as nat
    }

    /// Whether the handle currently resolves: its slot holds an actor
    /// stamped with exactly the handle's generation.
    pub closed spec fn live(self, index: ActorIndex) -> bool {
        &&& index.id < self.slots@.len()
        &&& match self.slots@[index.id as int] {
            Slot::Full { generation, .. } => generation == index.generation,
            Slot::Free { .. } => false,
        }
    }

    /// The actor a live handle resolves to.
    pub closed spec fn actor_at(self, index: ActorIndex) -> A {
        match self.slots@[index.id as int] {
            Slot::Full { actor, .. } => actor,
            Slot::Free { .. } => arbitrary(),
        }
    }

    /// A handle that is dead for good: it does not resolve now, and because
    /// its generation lies strictly below the store's counter, no later
    /// insertion (which stamps the current counter) can ever make it
    /// resolve again.  Every mutating operation preserves this predicate.
    pub closed spec fn stale(self, index: ActorIndex) -> bool {
        &&& index.generation < self.generation
        &&& !self.live(index)
    }

    /// Whether a reservation can be made: a free slot exists or a fresh
    /// slot id is still available.
    pub closed spec fn can_reserve(self) -> bool {
        self.free_order@.len() > 0 || self.num_slots() < usize::MAX
    }

    /// Whether `index` is what [`Self::next_index`] just handed out: the
    /// head of the free list, or the next fresh slot id.
    pub closed spec fn reservable(self, index: ActorIndex) -> bool {
        ||| (self.free_order@.len() > 0 && index.id == self.free_order@[0])
        ||| (index.id == self.num_slots() && self.num_slots() < usize::MAX)
    }

    /// The arena invariant: the size field counts the full slots, and the
    /// free slots form exactly the free list, a duplicate-free chain whose
    /// head is `free_top` and whose links follow the chain order.
    pub closed spec fn wf(self) -> bool {
        let chain = self.free_order@;
        &&& self.size as int == count_full(self.slots@)
        &&& (forall|j: int|
            0 <= j < self.slots@.len() ==> (match #[trigger] self.slots@[j] {
                Slot::Full { generation, .. } => generation <= self.generation,
                Slot::Free { .. } => true,
            }))
        &&& chain.no_duplicates()
        &&& (forall|k: int|
            0 <= k < chain.len() ==> (#[trigger] chain[k]) < self.slots@.len()
                && self.slots@[chain[k] as int] is Free)
        &&& (forall|j: int|
            0 <= j < self.slots@.len() && (#[trigger] self.slots@[j]) is Free ==> chain.contains(
                j as usize,
            ))
        &&& (forall|k: int|
            0 <= k < chain.len() ==> (match self.slots@[(#[trigger] chain[k]) as int] {
                Slot::Free { next_free } => next_free == if k + 1 < chain.len() {
                    Some(chain[k + 1])
                } else {
                    None::<usize>
                },
                Slot::Full { .. } => false,
            }))
        &&& self.free_top == (if chain.len() > 0 {
            Some(chain[0])
        } else {
            None::<usize>
        })
    }

    pub fn new() -> (r: ActorManager<A>)
        ensures
            r.wf(),
            r.spec_generation() == 0,
            r.num_live() == 0,
            r.num_slots() == 0,
            forall|h: ActorIndex| !r.live(h),
    {
        ActorManager {
            slots: Vec::new(),
            free_top: None,
            generation: 0,
            size: 0,
            free_order: Ghost(Seq::empty()),
        }
    }

    pub fn with_capacity(capacity: usize) -> (r: ActorManager<A>)
        ensures
            r.wf(),
            r.spec_generation() == 0,
            r.num_live() == 0,
            r.num_slots() == 0,
            forall|h: ActorIndex| !r.live(h),
    {
        ActorManager {
            slots: Vec::with_capacity(capacity),
            free_top: None,
            generation: 0,
            size: 0,
            free_order: Ghost(Seq::empty()),
        }
    }

    /// Reserves the handle that the next insertion will use: the head of
    /// the free list if one exists (stamped with the current generation),
    /// else the next fresh slot id.  The store itself is unchanged; the
    /// returned handle must be passed to [`Self::add`] before any other
    /// reservation or removal.
    pub fn next_index(&mut self) -> (r: NextIndex)
        requires
            old(self).wf(),
            old(self).can_reserve(),
        ensures
            *final(self) == *old(self),
            final(self).reservable(r.spec_index()),
            r.spec_index().generation == old(self).spec_generation(),
            !old(self).live(r.spec_index()),
    {
        let id = match self.free_top {
            Some(top) => top,
            None => self.slots.len(),
        };
        NextIndex(ActorIndex { id, generation: self.generation })
    }

    /// Adds a new actor into the manager.
    ///
    /// The index passed in must be the result of [`Self::next_index`] on
    /// the store as it stands; anything else would corrupt the free list.
    pub fn add(&mut self, index: NextIndex, actor: A)
        requires
            old(self).wf(),
            old(self).reservable(index.spec_index()),
            index.spec_index().generation == old(self).spec_generation(),
        ensures
            final(self).wf(),
            final(self).live(index.spec_index()),
            final(self).actor_at(index.spec_index()) == actor,
            final(self).spec_generation() == old(self).spec_generation(),
            final(self).num_live() == old(self).num_live() + 1,
            index.spec_index().id == old(self).num_slots() ==> final(self).num_slots() == old(self).num_slots() + 1,
            index.spec_index().id < old(self).num_slots() ==> final(self).num_slots() == old(self).num_slots(),
            forall|h: ActorIndex|
                h.id != index.spec_index().id ==> final(self).live(h) == old(self).live(h),
            // An insertion can only fill a free or fresh slot, so every
            // live handle keeps resolving, to the same actor.
            forall|h: ActorIndex|
                old(self).live(h) ==> final(self).live(h) && final(self).actor_at(h) == old(
                    self,
                ).actor_at(h),
            forall|h: ActorIndex| old(self).stale(h) ==> final(self).stale(h),
    {
        let NextIndex(idx) = index;
        let id = idx.id;
        let actor_slot = Slot::Full { actor, generation: idx.generation };
        let ghost chain = self.free_order@;

        if id == self.slots.len() {
            self.slots.push(actor_slot);
            proof {
                assert(self.slots@.drop_last() =~= old(self).slots@);
                lemma_count_full_bounds(old(self).slots@);
            }
        } else {
            match &self.slots[id] {
                Slot::Free { next_free } => {
                    self.free_top = *next_free;
                },
                Slot::Full { .. } => {},
            }
            proof {
                lemma_count_full_update(self.slots@, id as int, actor_slot);
                lemma_count_full_missing(self.slots@, id as int);
            }
            self.slots.set(id, actor_slot);
            proof {
                self.free_order = Ghost(chain.drop_first());
                assert forall|j: int|
                    0 <= j < self.slots@.len() && (#[trigger] self.slots@[j]) is Free implies self
                    .free_order@.contains(j as usize) by {
                    assert(old(self).slots@[j] is Free);
                    assert(chain.contains(j as usize));
                    let k = choose|k: int| 0 <= k < chain.len() && chain[k] == j as usize;
                    assert(k != 0);
                    assert(chain.drop_first()[k - 1] == j as usize);
                }
            }
        }
        self.size = self.size + 1;
    }

    /// Removes an actor from the manager.  A stale or free handle is a
    /// silent no-op: actors dying earlier in the same frame is routine.
    pub fn remove(&mut self, index: ActorIndex)
        requires
            old(self).wf(),
        ensures
            final(self).wf(),
            !final(self).live(index),
            final(self).spec_generation() >= old(self).spec_generation(),
            final(self).num_slots() == old(self).num_slots(),
            forall|h: ActorIndex| h.id != index.id ==> final(self).live(h) == old(self).live(h),
            forall|h: ActorIndex|
                h.id != index.id && old(self).live(h) ==> final(self).actor_at(h) == old(self).actor_at(h),
            forall|h: ActorIndex| old(self).stale(h) ==> final(self).stale(h),
            old(self).live(index) ==> final(self).num_live() == old(self).num_live() - 1,
            old(self).live(index) && old(self).spec_generation() < usize::MAX ==> final(self).stale(index) && final(self).spec_generation() > old(self).spec_generation(),
            !old(self).live(index) ==> *final(self) == *old(self),
    {
        let id = index.id;

        if id >= self.slots.len() {
            return ;
        }
        match &self.slots[id] {
            Slot::Free { .. } => {
                return ;
            },
            Slot::Full { generation, .. } => {
                if *generation != index.generation {
                    return ;
                }
            },
        }

        proof {
            lemma_count_full_pos(self.slots@, id as int);
            lemma_count_full_update(
                self.slots@,
                id as int,
                Slot::Free { next_free: self.free_top },
            );
        }
        let ghost chain0 = self.free_order@;
        let freed = Slot::Free { next_free: self.free_top };
        self.slots.set(id, freed);
        self.free_top = Some(id);
        self.free_order = Ghost(seq![id] + chain0);
        if self.generation < usize::MAX {
            self.generation = self.generation + 1;
        }
        self.size = self.size - 1;
        proof {
            let chain = self.free_order@;
            assert(chain.len() == chain0.len() + 1);
            assert(chain[0] == id);
            assert(forall|k: int| 1 <= k < chain.len() ==> chain[k] == chain0[k - 1]);
            assert(!chain0.contains(id)) by {
                if chain0.contains(id) {
                    let k = choose|k: int| 0 <= k < chain0.len() && chain0[k] == id;
                    assert(old(self).slots@[id as int] is Free);
                }
            }
            assert(chain.no_duplicates()) by {
                assert forall|k1: int, k2: int|
                    0 <= k1 < k2 < chain.len() implies chain[k1] != chain[k2] by {
                    if k1 == 0 {
                        assert(chain0.contains(chain0[k2 - 1]));
                    }
                }
            }
            assert forall|j: int|
                0 <= j < self.slots@.len() && (#[trigger] self.slots@[j]) is Free implies chain
                .contains(j as usize) by {
                if j == id {
                    assert(chain[0] == j as usize);
                } else {
                    assert(old(self).slots@[j] is Free);
                    let k = choose|k: int| 0 <= k < chain0.len() && chain0[k] == j as usize;
                    assert(chain[k + 1] == j as usize);
                }
            }
        }
    }

    /// Whether a handle currently resolves to a live actor.
    pub fn contains(&self, index: ActorIndex) -> (r: bool)
        ensures
            r == self.live(index),
    {
        if index.id >= self.slots.len() {
            return false;
        }
        match &self.slots[index.id] {
            Slot::Full { generation, .. } => *generation == index.generation,
            Slot::Free { .. } => false,
        }
    }

    /// Whether a reservation can be made right now: there is a free slot
    /// to reuse, or a fresh slot id is still available.
    pub fn has_free_capacity(&self) -> (r: bool)
        requires
            self.wf(),
        ensures
            r == self.can_reserve(),
    {
        match self.free_top {
            Some(_) => true,
            None => self.slots.len() < usize::MAX,
        }
    }

    /// The number of live actors.
    pub fn len(&self) -> (r: usize)
        ensures
            r == self.num_live(),
    {
        self.size
    }

    /// How many actors the arena can hold before it grows.
    pub fn capacity(&self) -> (r: usize)
        ensures
            r >= self.num_slots(),
    {
        vec_capacity(&self.slots)
    }

    pub fn is_empty(&self) -> (r: bool)
        ensures
            r == (self.num_live() == 0),
    {
        self.len() == 0
    }

    /// The handles of all live actors, in slot order.
    pub fn live_indexes(&self) -> (r: Vec<ActorIndex>)
        ensures
            forall|k: int| 0 <= k < r@.len() ==> self.live(#[trigger] r@[k]),
            forall|h: ActorIndex| self.live(h) ==> r@.contains(h),
            forall|k1: int, k2: int| 0 <= k1 < k2 < r@.len() ==> r@[k1].id < r@[k2].id,
    {
        let mut out: Vec<ActorIndex> = Vec::new();
        let mut i: usize = 0;
        while i < self.slots.len()
            invariant
                i <= self.slots@.len(),
                forall|k: int| 0 <= k < out@.len() ==> self.live(#[trigger] out@[k]),
                forall|k: int| 0 <= k < out@.len() ==> (#[trigger] out@[k]).id < i,
                forall|h: ActorIndex| self.live(h) && h.id < i ==> out@.contains(h),
                forall|k1: int, k2: int| 0 <= k1 < k2 < out@.len() ==> out@[k1].id < out@[k2].id,
            decreases self.slots@.len() - i,
        {
            let ghost out_pre = out@;
            match &self.slots[i] {
                Slot::Full { generation, .. } => {
                    let handle = ActorIndex { id: i, generation: *generation };
                    out.push(handle);
                },
                Slot::Free { .. } => {},
            }
            proof {
                assert forall|h: ActorIndex|
                    self.live(h) && h.id < i + 1 implies out@.contains(h) by {
                    if h.id < i {
                        let k = choose|k: int| 0 <= k < out_pre.len() && out_pre[k] == h;
                        assert(out@[k] == h);
                    } else {
                        assert(out@[out@.len() - 1] == h);
                    }
                }
            }
            i = i + 1;
        }
        out
    }
}

/// Relies on Vec::capacity: a vector can hold at least its current length
/// without reallocating.
#[verifier::external_body]
fn vec_capacity<T>(v: &Vec<T>) -> (r: usize)
    ensures
        r >= v@.len(),
{
    v.capacity()
}

impl<A: Actor> ActorManager<A> {
    /// Attempts to send a message to an actor and returns either the
    /// response or the given default message if the actor cannot be found.
    pub fn apply_message(&mut self, actor_id: ActorIndex, msg: &A::Message, none: A::Message) -> (r:
        A::Message)
        requires
            old(self).wf(),
        ensures
            final(self).wf(),
            final(self).spec_generation() == old(self).spec_generation(),
            final(self).num_slots() == old(self).num_slots(),
            final(self).num_live() == old(self).num_live(),
            forall|h: ActorIndex| final(self).live(h) == old(self).live(h),
            forall|h: ActorIndex|
                h.id != actor_id.id && old(self).live(h) ==> final(self).actor_at(h) == old(self).actor_at(h),
            forall|h: ActorIndex| old(self).stale(h) ==> final(self).stale(h),
            !old(self).live(actor_id) ==> r == none && (forall|h: ActorIndex|
                old(self).live(h) ==> final(self).actor_at(h) == old(self).actor_at(h)),
    {
        if actor_id.id >= self.slots.len() {
            return none;
        }
        let r: A::Message;
        match &mut self.slots[actor_id.id] {
            Slot::Full { actor, generation } => {
                if *generation == actor_id.generation {
                    r = actor.handle_message(msg);
                } else {
                    r = none;
                }
            },
            Slot::Free { .. } => {
                r = none;
            },
        }
        proof {
            if old(self).live(actor_id) {
                lemma_wf_after_actor_touch(*old(self), *self, actor_id.id as int);
            } else {
                assert(self.slots@ =~= old(self).slots@);
                lemma_state_eq(*old(self), *self);
            }
        }
        r
    }

    /// A live actor's snapshot, or None for a stale handle.
    pub fn actor_data(&mut self, actor_id: ActorIndex) -> (r: Option<ActorData<A::Type>>)
        requires
            old(self).wf(),
        ensures
            final(self).wf(),
            final(self).spec_generation() == old(self).spec_generation(),
            final(self).num_slots() == old(self).num_slots(),
            final(self).num_live() == old(self).num_live(),
            forall|h: ActorIndex| final(self).live(h) == old(self).live(h),
            forall|h: ActorIndex|
                h.id != actor_id.id && old(self).live(h) ==> final(self).actor_at(h) == old(self).actor_at(h),
            forall|h: ActorIndex| old(self).stale(h) ==> final(self).stale(h),
            r is Some <==> old(self).live(actor_id),
    {
        if actor_id.id >= self.slots.len() {
            return None;
        }
        let r: Option<ActorData<A::Type>>;
        match &mut self.slots[actor_id.id] {
            Slot::Full { actor, generation } => {
                if *generation == actor_id.generation {
                    r = Some(actor.data());
                } else {
                    r = None;
                }
            },
            Slot::Free { .. } => {
                r = None;
            },
        }
        proof {
            if old(self).live(actor_id) {
                lemma_wf_after_actor_touch(*old(self), *self, actor_id.id as int);
            } else {
                assert(self.slots@ =~= old(self).slots@);
                lemma_state_eq(*old(self), *self);
            }
        }
        r
    }

    /// Runs a live actor's per-frame update, returning its intended motion,
    /// or None for a stale handle.
    pub fn update_actor(
        &mut self,
        actor_id: ActorIndex,
        context: &mut A::Context,
        elapsed_ms: u32,
    ) -> (r: Option<PositionChange>)
        requires
            old(self).wf(),
        ensures
            final(self).wf(),
            final(self).spec_generation() == old(self).spec_generation(),
            final(self).num_slots() == old(self).num_slots(),
            final(self).num_live() == old(self).num_live(),
            forall|h: ActorIndex| final(self).live(h) == old(self).live(h),
            forall|h: ActorIndex|
                h.id != actor_id.id && old(self).live(h) ==> final(self).actor_at(h) == old(self).actor_at(h),
            forall|h: ActorIndex| old(self).stale(h) ==> final(self).stale(h),
            r is Some <==> old(self).live(actor_id),
    {
        if actor_id.id >= self.slots.len() {
            return None;
        }
        let r: Option<PositionChange>;
        match &mut self.slots[actor_id.id] {
            Slot::Full { actor, generation } => {
                if *generation == actor_id.generation {
                    r = Some(actor.update(context, elapsed_ms));
                } else {
                    r = None;
                }
            },
            Slot::Free { .. } => {
                r = None;
            },
        }
        proof {
            if old(self).live(actor_id) {
                lemma_wf_after_actor_touch(*old(self), *self, actor_id.id as int);
            } else {
                assert(self.slots@ =~= old(self).slots@);
                lemma_state_eq(*old(self), *self);
            }
        }
        r
    }

    /// Asks a live actor whether it collides with the given snapshot;
    /// a stale handle never collides.
    pub fn actor_collides_with(
        &mut self,
        actor_id: ActorIndex,
        other: &ActorData<A::Type>,
    ) -> (r: Option<CollisionSide>)
        requires
            old(self).wf(),
        ensures
            final(self).wf(),
            final(self).spec_generation() == old(self).spec_generation(),
            final(self).num_slots() == old(self).num_slots(),
            final(self).num_live() == old(self).num_live(),
            forall|h: ActorIndex| final(self).live(h) == old(self).live(h),
            forall|h: ActorIndex|
                h.id != actor_id.id && old(self).live(h) ==> final(self).actor_at(h) == old(self).actor_at(h),
            forall|h: ActorIndex| old(self).stale(h) ==> final(self).stale(h),
            !old(self).live(actor_id) ==> r is None,
    {
        if actor_id.id >= self.slots.len() {
            return None;
        }
        let r: Option<CollisionSide>;
        match &mut self.slots[actor_id.id] {
            Slot::Full { actor, generation } => {
                if *generation == actor_id.generation {
                    r = actor.collides_with(other);
                } else {
                    r = None;
                }
            },
            Slot::Free { .. } => {
                r = None;
            },
        }
        proof {
            if old(self).live(actor_id) {
                lemma_wf_after_actor_touch(*old(self), *self, actor_id.id as int);
            } else {
                assert(self.slots@ =~= old(self).slots@);
                lemma_state_eq(*old(self), *self);
            }
        }
        r
    }
}

/// Two handles for the same slot but different generations can never both
/// resolve: the slot holds a single generation stamp.
pub proof fn lemma_generation_exclusive<A>(m: ActorManager<A>, h1: ActorIndex, h2: ActorIndex)
    requires
        h1.id == h2.id,
        h1.generation != h2.generation,
    ensures
        !(m.live(h1) && m.live(h2)),
{
}

} // verus!
