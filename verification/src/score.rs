//! A point system: maintains multiple updatable named scores.
use vstd::prelude::*;

verus! {

/// Maintains multiple updatable scores, addressed by name.
///
/// Viewed as a map from the name's characters to the score's value.
pub struct Score {
    scores: Vec<(String, i64)>,
}

impl View for Score {
    type V = Map<Seq<char>, int>;

    closed spec fn view(&self) -> Map<Seq<char>, int> {
        entries_map(self.scores@)
    }
}

/// The map that a sequence of name-value pairs denotes; later pairs win.
pub open spec fn entries_map(entries: Seq<(String, i64)>) -> Map<Seq<char>, int>
    decreases entries.len(),
{
    if entries.len() == 0 {
        Map::empty()
    } else {
        entries_map(entries.drop_last()).insert(entries.last().0@, entries.last().1 as int)
    }
}

/// No two entries of the sequence carry the same name.
pub open spec fn entries_unique(entries: Seq<(String, i64)>) -> bool {
    forall|i: int, j: int| 0 <= i < j < entries.len() ==> entries[i].0@ != entries[j].0@
}

/// With unique names, membership in the denoted map is the same as having
/// an entry with that name, and the value is that entry's value.
proof fn lemma_entries(entries: Seq<(String, i64)>, name: Seq<char>)
    requires
        entries_unique(entries),
    ensures
        entries_map(entries).contains_key(name) <==> exists|i: int|
            0 <= i < entries.len() && (#[trigger] entries[i]).0@ == name,
        forall|i: int|
            0 <= i < entries.len() && (#[trigger] entries[i]).0@ == name ==> entries_map(
                entries,
            )[name] == entries[i].1 as int,
    decreases entries.len(),
{
    if entries.len() > 0 {
        let inner = entries.drop_last();
        let last = entries.len() - 1;
        lemma_entries(inner, name);
        assert(forall|i: int| 0 <= i < inner.len() ==> inner[i] == #[trigger] entries[i]);
        if entries[last].0@ == name {
            assert(entries_map(entries)[name] == entries[last].1 as int);
            assert forall|i: int|
                0 <= i < entries.len() && (#[trigger] entries[i]).0@ == name implies entries_map(
                entries,
            )[name] == entries[i].1 as int by {
                if i < last {
                    assert(entries[i].0@ != entries[last].0@);
                }
            }
        } else {
            assert(entries_map(entries)[name] == entries_map(inner)[name] || !entries_map(
                entries,
            ).contains_key(name));
            assert forall|i: int|
                0 <= i < entries.len() && (#[trigger] entries[i]).0@ == name implies entries_map(
                entries,
            )[name] == entries[i].1 as int by {
                assert(i < last);
                assert(inner[i] == entries[i]);
            }
            if entries_map(entries).contains_key(name) {
                assert(entries_map(inner).contains_key(name));
            }
        }
    }
}

/// Overwriting the entry at `k` with the same name denotes inserting into
/// the map, and keeps the names unique.
proof fn lemma_entries_update(entries: Seq<(String, i64)>, k: int, s: String, v: i64)
    requires
        0 <= k < entries.len(),
        entries_unique(entries),
        s@ == entries[k].0@,
    ensures
        entries_map(entries.update(k, (s, v))) == entries_map(entries).insert(s@, v as int),
        entries_unique(entries.update(k, (s, v))),
    decreases entries.len(),
{
    let updated = entries.update(k, (s, v));
    if k < entries.len() - 1 {
        assert(updated.drop_last() =~= entries.drop_last().update(k, (s, v)));
        lemma_entries_update(entries.drop_last(), k, s, v);
        assert(entries_map(updated) =~= entries_map(entries).insert(s@, v as int));
    } else {
        assert(updated.drop_last() =~= entries.drop_last());
        assert(entries_map(updated) =~= entries_map(entries).insert(s@, v as int));
    }
}

/// Removing the entry at `k` denotes removing its name from the map.
proof fn lemma_entries_remove(entries: Seq<(String, i64)>, k: int)
    requires
        0 <= k < entries.len(),
        entries_unique(entries),
    ensures
        entries_map(entries.remove(k)) == entries_map(entries).remove(entries[k].0@),
        entries_unique(entries.remove(k)),
    decreases entries.len(),
{
    let name = entries[k].0@;
    lemma_entries(entries, name);
    lemma_entries(entries.remove(k), name);
    if k < entries.len() - 1 {
        assert(entries.remove(k).drop_last() =~= entries.drop_last().remove(k));
        assert(entries.remove(k).last() == entries.last());
        lemma_entries_remove(entries.drop_last(), k);
        assert(entries_map(entries.remove(k)) =~= entries_map(entries).remove(name));
    } else {
        assert(entries.remove(k) =~= entries.drop_last());
        lemma_entries(entries.drop_last(), name);
        assert(entries_map(entries.remove(k)) =~= entries_map(entries).remove(name));
    }
}

impl Score {
    /// No two entries carry the same name.
    pub closed spec fn wf(self) -> bool {
        entries_unique(self.scores@)
    }

    /// Finds the entry named `name`, if any.
    fn find(&self, name: &String) -> (r: Option<usize>)
        requires
            self.wf(),
        ensures
            match r {
                Some(i) => i < self.scores@.len() && self.scores@[i as int].0@ == name@
                    && self@.contains_key(name@) && self@[name@] == self.scores@[i as int].1 as int,
                None => !self@.contains_key(name@),
            },
    {
        proof {
            lemma_entries(self.scores@, name@);
        }
        let mut i: usize = 0;
        while i < self.scores.len()
            invariant
                self.wf(),
                i <= self.scores@.len(),
                forall|j: int| 0 <= j < i ==> self.scores@[j].0@ != name@,
            decreases self.scores@.len() - i,
        {
            if self.scores[i].0 == *name {
                proof {
                    lemma_entries(self.scores@, name@);
                }
                return Some(i);
            }
            i = i + 1;
        }
        None
    }

    pub fn new() -> (r: Score)
        ensures
            r.wf(),
            r@ == Map::<Seq<char>, int>::empty(),
    {
        Score { scores: Vec::new() }
    }

    /// Creates (or resets) the score named `name` with the value 0.
    pub fn add_score(&mut self, name: &str)
        requires
            old(self).wf(),
        ensures
            final(self).wf(),
            final(self)@ == old(self)@.insert(name@, 0),
    {
        let ghost pre = self.scores@;
        let key = name.to_owned();
        match self.find(&key) {
            Some(i) => {
                proof {
                    lemma_entries_update(pre, i as int, key, 0);
                }
                self.scores.set(i, (key, 0));
            },
            None => {
                self.scores.push((key, 0));
                proof {
                    assert(self.scores@.drop_last() =~= pre);
                    lemma_entries(pre, key@);
                }
            },
        }
    }

    /// Deletes the score named `name`; a missing name is a no-op.
    pub fn remove_score(&mut self, name: &str)
        requires
            old(self).wf(),
        ensures
            final(self).wf(),
            final(self)@ == old(self)@.remove(name@),
    {
        let ghost pre = self.scores@;
        let key = name.to_owned();
        match self.find(&key) {
            Some(i) => {
                proof {
                    lemma_entries_remove(pre, i as int);
                }
                self.scores.remove(i);
            },
            None => {
                proof {
                    assert(old(self)@ =~= old(self)@.remove(name@));
                }
            },
        }
    }

    /// Overwrites the score named `name`; a missing name is a no-op.
    pub fn update_score(&mut self, name: &str, new_score: i64)
        requires
            old(self).wf(),
        ensures
            final(self).wf(),
            old(self)@.contains_key(name@) ==> final(self)@ == old(self)@.insert(
                name@,
                new_score as int,
            ),
            !old(self)@.contains_key(name@) ==> final(self)@ == old(self)@,
    {
        let ghost pre = self.scores@;
        let key = name.to_owned();
        match self.find(&key) {
            Some(i) => {
                proof {
                    lemma_entries_update(pre, i as int, key, new_score);
                }
                self.scores.set(i, (key, new_score));
            },
            None => {},
        }
    }

    /// Adds `increment_amount` to the score named `name`.  A missing name
    /// is a no-op, and so is an increment that would leave the value's
    /// range.
    pub fn increment_score(&mut self, name: &str, increment_amount: i32)
        requires
            old(self).wf(),
        ensures
            final(self).wf(),
            ({
                let fits = i64::MIN <= old(self)@[name@] + increment_amount <= i64::MAX;
                if old(self)@.contains_key(name@) && fits {
                    final(self)@ == old(self)@.insert(name@, old(self)@[name@] + increment_amount)
                } else {
                    final(self)@ == old(self)@
                }
            }),
    {
        let ghost pre = self.scores@;
        let key = name.to_owned();
        match self.find(&key) {
            Some(i) => {
                let current: i64 = self.scores[i].1;
                match current.checked_add(increment_amount as i64) {
                    Some(sum) => {
                        proof {
                            lemma_entries_update(pre, i as int, key, sum);
                        }
                        self.scores.set(i, (key, sum));
                    },
                    None => {},
                }
            },
            None => {},
        }
    }

    /// The value of the score named `counter_name`, if it exists.
    pub fn score(&self, counter_name: &str) -> (r: Option<i64>)
        requires
            self.wf(),
        ensures
            match r {
                Some(v) => self@.contains_key(counter_name@) && v as int == self@[counter_name@],
                None => !self@.contains_key(counter_name@),
            },
    {
        let key = counter_name.to_owned();
        match self.find(&key) {
            Some(i) => Some(self.scores[i].1),
            None => None,
        }
    }
}

} // verus!
