//! In-memory profile repository, keyed by profile id.
use vstd::prelude::*;
use crate::idmap::IdMap;
use crate::identity::{HomeError, Profile, ProfileId, ProfileView};

verus! {

pub struct ProfileStore {
    content: IdMap<Profile>,
}

impl ProfileStore {
    pub closed spec fn wf(&self) -> bool {
        self.content.wf()
    }

    /// The stored profiles, keyed by the bytes of their ids.
    pub closed spec fn view(&self) -> Map<Seq<u8>, Profile> {
        self.content.view()
    }

    pub fn new() -> (r: ProfileStore)
        ensures
            r.wf(),
            r.view() == Map::<Seq<u8>, Profile>::empty(),
    {
        ProfileStore { content: IdMap::new() }
    }

    /// Stores `profile` under `id`, handing back the profile it replaced.
    pub fn insert(&mut self, id: ProfileId, profile: Profile) -> (r: Option<Profile>)
        requires
            old(self).wf(),
        ensures
            final(self).wf(),
            final(self).view() == old(self).view().insert(id@, profile),
            match r {
                Some(p) => old(self).view().contains_key(id@) && p == old(self).view()[id@],
                None => !old(self).view().contains_key(id@),
            },
    {
        self.content.insert(id, profile)
    }

    /// Drops the profile stored under `id`; says whether there was one.
    pub fn remove(&mut self, id: &ProfileId) -> (r: bool)
        requires
            old(self).wf(),
        ensures
            final(self).wf(),
            final(self).view() == old(self).view().remove(id@),
            r == old(self).view().contains_key(id@),
    {
        self.content.remove(id).is_some()
    }

    pub fn contains(&self, id: &ProfileId) -> (r: bool)
        requires
            self.wf(),
        ensures
            r == self.view().contains_key(id@),
    {
        self.content.contains(id)
    }

    pub fn get(&self, id: &ProfileId) -> (r: Option<&Profile>)
        requires
            self.wf(),
        ensures
            match r {
                Some(p) => self.view().contains_key(id@) && *p == self.view()[id@],
                None => !self.view().contains_key(id@),
            },
    {
        self.content.get(id)
    }

    /// A copy of the profile stored under `id`; `NotFound` when there is none.
    pub fn load(&self, id: &ProfileId) -> (r: Result<Profile, HomeError>)
        requires
            self.wf(),
        ensures
            r is Ok <==> self.view().contains_key(id@),
            r matches Ok(p) ==> p@ == self.view()[id@]@,
            r matches Err(e) ==> e == HomeError::NotFound,
    {
        match self.content.get(id) {
            Some(p) => Ok(p.copy()),
            None => Err(HomeError::NotFound),
        }
    }

    /// Some id holds a profile with view `p`.
    pub open spec fn holds(&self, p: ProfileView) -> bool {
        exists|k: Seq<u8>| #[trigger] self.view().contains_key(k) && self.view()[k]@ == p
    }

    /// Copies of all stored profiles, each once, in no particular order.
    pub fn list(&self) -> (r: Vec<Profile>)
        requires
            self.wf(),
        ensures
            r@.len() == self.view().dom().len(),
            forall|i: int| 0 <= i < r@.len() ==> self.holds(#[trigger] r@[i]@),
            forall|k: Seq<u8>| #[trigger] self.view().contains_key(k) ==> exists|i: int| 0 <= i < r@.len() && r@[i]@ == self.view()[k]@,
    {
        let keys = self.content.keys();
        let mut out: Vec<Profile> = Vec::new();
        let mut i: usize = 0;
        while i < keys.len()
            invariant
                self.wf(),
                0 <= i <= keys@.len(),
                out@.len() == i,
                forall|j: int| 0 <= j < keys@.len() ==> #[trigger] self.view().contains_key(keys@[j]@),
                keys@.len() == self.view().dom().len(),
                forall|k: Seq<u8>| #[trigger] self.view().contains_key(k) ==> exists|j: int| 0 <= j < keys@.len() && keys@[j]@ == k,
                forall|j: int| 0 <= j < i ==> #[trigger] out@[j]@ == self.view()[keys@[j]@]@,
            decreases keys@.len() - i,
        {
            match self.content.get(&keys[i]) {
                Some(p) => out.push(p.copy()),
                None => {
                    assert(self.view().contains_key(keys@[i as int]@));
                    return out;
                },
            }
            i = i + 1;
        }
        assert forall|j: int| 0 <= j < out@.len() implies self.holds(#[trigger] out@[j]@) by {
            let k = keys@[j]@;
            assert(self.view().contains_key(k) && out@[j]@ == self.view()[k]@);
        }
        assert forall|k: Seq<u8>| #[trigger] self.view().contains_key(k) implies exists|j: int| 0 <= j < out@.len()
            && out@[j]@ == self.view()[k]@ by {
            let j = choose|j: int| 0 <= j < keys@.len() && keys@[j]@ == k;
            assert(out@[j]@ == self.view()[k]@);
        }
        out
    }

    /// Resolves an external locator; this store knows none, so it always
    /// fails with `ResolutionFailed`.
    pub fn resolve(&self, url: &str) -> (r: Result<Profile, HomeError>)
        ensures
            r == Err::<Profile, HomeError>(HomeError::ResolutionFailed),
    {
        Err(HomeError::ResolutionFailed)
    }
}

} // verus!
