//! A map keyed by profile id, held as a vector of entries with unique keys.
use vstd::prelude::*;
use crate::identity::ProfileId;

verus! {

/// A sequence without repeats that covers exactly a set is as long as the set.
proof fn lemma_distinct_cover_len(ks: Seq<Seq<u8>>, dom: Set<Seq<u8>>)
    requires
        forall|a: int, b: int| 0 <= a < b < ks.len() ==> ks[a] != ks[b],
        forall|i: int| 0 <= i < ks.len() ==> #[trigger] dom.contains(ks[i]),
        forall|k: Seq<u8>| #[trigger] dom.contains(k) ==> exists|i: int| 0 <= i < ks.len() && ks[i] == k,
    ensures
        ks.len() == dom.len(),
{
    assert(ks.no_duplicates()) by {
        assert forall|a: int, b: int| 0 <= a < ks.len() && 0 <= b < ks.len() && a != b implies ks[a] != ks[b] by {
            if a > b {
                assert(ks[b] != ks[a]);
            }
        }
    }
    assert(ks.to_set() =~= dom) by {
        assert forall|k: Seq<u8>| ks.to_set().contains(k) <==> dom.contains(k) by {
            if dom.contains(k) {
                let i = choose|i: int| 0 <= i < ks.len() && ks[i] == k;
                assert(ks.contains(k));
            }
            if ks.to_set().contains(k) {
                assert(ks.contains(k));
            }
        }
    }
    ks.unique_seq_to_set();
}

pub struct IdMap<V> {
    entries: Vec<(ProfileId, V)>,
    contents: Ghost<Map<Seq<u8>, V>>,
}

impl<V> IdMap<V> {
    /// Keys are unique and the entries are exactly the contents.
    pub closed spec fn wf(&self) -> bool {
        &&& forall|i: int, j: int|
            0 <= i < j < self.entries@.len() ==> #[trigger] self.entries@[i].0@ != #[trigger] self.entries@[j].0@
        &&& forall|i: int|
            0 <= i < self.entries@.len() ==> #[trigger] self.contents@.contains_key(self.entries@[i].0@)
                && self.contents@[self.entries@[i].0@] == self.entries@[i].1
        &&& forall|k: Seq<u8>|
            #[trigger] self.contents@.contains_key(k) ==> exists|i: int|
                0 <= i < self.entries@.len() && #[trigger] self.entries@[i].0@ == k
    }

    /// The entries, keyed by the bytes of the id.
    pub closed spec fn view(&self) -> Map<Seq<u8>, V> {
        self.contents@
    }

    pub fn new() -> (r: Self)
        ensures
            r.wf(),
            r.view() == Map::<Seq<u8>, V>::empty(),
    {
        IdMap { entries: Vec::new(), contents: Ghost(Map::empty()) }
    }

    fn index_of(&self, key: &ProfileId) -> (r: Option<usize>)
        requires
            self.wf(),
        ensures
            match r {
                Some(i) => i < self.entries@.len() && self.entries@[i as int].0@ == key@,
                None => !self.view().contains_key(key@),
            },
    {
        let mut i: usize = 0;
        while i < self.entries.len()
            invariant
                0 <= i <= self.entries@.len(),
                forall|j: int| 0 <= j < i ==> self.entries@[j].0@ != key@,
            decreases self.entries@.len() - i,
        {
            if self.entries[i].0.same_as(key) {
                return Some(i);
            }
            i = i + 1;
        }
        None
    }

    pub fn contains(&self, key: &ProfileId) -> (r: bool)
        requires
            self.wf(),
        ensures
            r == self.view().contains_key(key@),
    {
        self.index_of(key).is_some()
    }

    pub fn get(&self, key: &ProfileId) -> (r: Option<&V>)
        requires
            self.wf(),
        ensures
            match r {
                Some(v) => self.view().contains_key(key@) && *v == self.view()[key@],
                None => !self.view().contains_key(key@),
            },
    {
        match self.index_of(key) {
            Some(i) => {
                assert(self.contents@.contains_key(self.entries@[i as int].0@));
                Some(&self.entries[i].1)
            },
            None => None,
        }
    }

    /// The keys, each once, in no particular order.
    pub fn keys(&self) -> (r: Vec<ProfileId>)
        requires
            self.wf(),
        ensures
            forall|i: int| 0 <= i < r@.len() ==> #[trigger] self.view().contains_key(r@[i]@),
            forall|k: Seq<u8>| #[trigger] self.view().contains_key(k) ==> exists|i: int| 0 <= i < r@.len() && r@[i]@ == k,
            forall|i: int, j: int| 0 <= i < j < r@.len() ==> r@[i]@ != r@[j]@,
            r@.len() == self.view().dom().len(),
    {
        let mut out: Vec<ProfileId> = Vec::new();
        let mut i: usize = 0;
        while i < self.entries.len()
            invariant
                self.wf(),
                0 <= i <= self.entries@.len(),
                out@.len() == i,
                forall|j: int| 0 <= j < i ==> #[trigger] out@[j]@ == self.entries@[j].0@,
            decreases self.entries@.len() - i,
        {
            out.push(self.entries[i].0.copy());
            i = i + 1;
        }
        assert forall|k: Seq<u8>| #[trigger] self.view().contains_key(k) implies exists|j: int|
            0 <= j < out@.len() && out@[j]@ == k by {
            let j = choose|j: int| 0 <= j < self.entries@.len() && self.entries@[j].0@ == k;
            assert(out@[j]@ == k);
        }
        assert forall|a: int, b: int| 0 <= a < b < out@.len() implies out@[a]@ != out@[b]@ by {
            assert(self.entries@[a].0@ != self.entries@[b].0@);
        }
        assert forall|j: int| 0 <= j < out@.len() implies #[trigger] self.view().contains_key(out@[j]@) by {
            assert(self.view().contains_key(self.entries@[j].0@));
        }
        proof {
            let ks = out@.map_values(|id: ProfileId| id@);
            let dom = self.view().dom();
            assert forall|k: Seq<u8>| #[trigger] dom.contains(k) implies exists|j: int| 0 <= j < ks.len() && ks[j] == k by {
                assert(self.view().contains_key(k));
                let j = choose|j: int| 0 <= j < out@.len() && out@[j]@ == k;
                assert(ks[j] == k);
            }
            assert forall|j: int| 0 <= j < ks.len() implies #[trigger] dom.contains(ks[j]) by {
                assert(self.view().contains_key(out@[j]@));
            }
            assert forall|a: int, b: int| 0 <= a < b < ks.len() implies ks[a] != ks[b] by {
                assert(out@[a]@ != out@[b]@);
            }
            lemma_distinct_cover_len(ks, dom);
        }
        out
    }

    /// Sets the value of `key`, handing back the value it replaced.
    pub fn insert(&mut self, key: ProfileId, value: V) -> (r: Option<V>)
        requires
            old(self).wf(),
        ensures
            final(self).wf(),
            final(self).view() == old(self).view().insert(key@, value),
            match r {
                Some(v) => old(self).view().contains_key(key@) && v == old(self).view()[key@],
                None => !old(self).view().contains_key(key@),
            },
    {
        let ghost k = key@;
        let ghost v0 = value;
        match self.index_of(&key) {
            Some(i) => {
                let ghost old_entries = self.entries@;
                let ghost old_contents = self.contents@;
                assert(old_contents.contains_key(old_entries[i as int].0@));
                let mut entry = (key, value);
                self.entries.set_and_swap(i, &mut entry);
                self.contents = Ghost(self.contents@.insert(k, v0));
                assert forall|j: int| 0 <= j < self.entries@.len() implies #[trigger] self.entries@[j].0@ == old_entries[j].0@ by {
                }
                assert forall|a: int, b: int| 0 <= a < b < self.entries@.len() implies #[trigger] self.entries@[a].0@
                    != #[trigger] self.entries@[b].0@ by {
                    assert(old_entries[a].0@ != old_entries[b].0@);
                }
                assert forall|j: int| 0 <= j < self.entries@.len() implies #[trigger] self.contents@.contains_key(
                    self.entries@[j].0@,
                ) && self.contents@[self.entries@[j].0@] == self.entries@[j].1 by {
                    if j != i {
                        assert(old_contents.contains_key(old_entries[j].0@));
                        assert(old_entries[j].0@ != old_entries[i as int].0@);
                    }
                }
                assert forall|kk: Seq<u8>| #[trigger] self.contents@.contains_key(kk) implies exists|j: int|
                    0 <= j < self.entries@.len() && #[trigger] self.entries@[j].0@ == kk by {
                    if kk != k {
                        let j = choose|j: int| 0 <= j < old_entries.len() && old_entries[j].0@ == kk;
                        assert(self.entries@[j].0@ == kk);
                    } else {
                        assert(self.entries@[i as int].0@ == kk);
                    }
                }
                Some(entry.1)
            },
            None => {
                self.entries.push((key, value));
                self.contents = Ghost(self.contents@.insert(k, v0));
                let n = self.entries.len() - 1;
                assert forall|kk: Seq<u8>| #[trigger] self.contents@.contains_key(kk) implies exists|j: int|
                    0 <= j < self.entries@.len() && #[trigger] self.entries@[j].0@ == kk by {
                    if kk != k {
                        let j = choose|j: int| 0 <= j < old(self).entries@.len() && old(self).entries@[j].0@ == kk;
                        assert(self.entries@[j].0@ == kk);
                    } else {
                        assert(self.entries@[n as int].0@ == kk);
                    }
                }
                None
            },
        }
    }

    /// Takes out the entry of `key`, if any.
    pub fn remove(&mut self, key: &ProfileId) -> (r: Option<V>)
        requires
            old(self).wf(),
        ensures
            final(self).wf(),
            final(self).view() == old(self).view().remove(key@),
            match r {
                Some(v) => old(self).view().contains_key(key@) && v == old(self).view()[key@],
                None => !old(self).view().contains_key(key@),
            },
    {
        match self.index_of(key) {
            None => {
                assert(self.contents@.remove(key@) =~= self.contents@);
                None
            },
            Some(i) => {
                let ghost old_entries = self.entries@;
                assert(self.contents@.contains_key(old_entries[i as int].0@));
                let last_index = self.entries.len() - 1;
                let mut last = self.entries.pop().unwrap();
                if i < last_index {
                    self.entries.set_and_swap(i, &mut last);
                }
                self.contents = Ghost(self.contents@.remove(key@));
                assert forall|kk: Seq<u8>| #[trigger] self.contents@.contains_key(kk) implies exists|j: int|
                    0 <= j < self.entries@.len() && #[trigger] self.entries@[j].0@ == kk by {
                    let j = choose|j: int| 0 <= j < old_entries.len() && old_entries[j].0@ == kk;
                    if j == last_index {
                        assert(self.entries@[i as int].0@ == kk);
                    } else {
                        assert(self.entries@[j].0@ == kk);
                    }
                }
                Some(last.1)
            },
        }
    }
}

} // verus!
