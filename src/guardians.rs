use vstd::prelude::*;
use crate::identity::IdentityKey;

verus! {

/// What registering a guardian did.
#[derive(Clone, Copy, Debug, PartialEq, Eq, Structural)]
pub enum AddOutcome {
    /// The address was new and is now registered.
    Added,
    /// The address was already registered; nothing changed.
    AlreadyExists,
}

/// The views of a sequence of strings.
pub open spec fn text_views(s: Seq<String>) -> Seq<Seq<char>> {
    s.map_values(|t: String| t@)
}

/// The guardian addresses that one identity registered, in order of addition.
struct Entry {
    owner: IdentityKey,
    addresses: Vec<String>,
}

/// Delegation edges: for each identity, a duplicate-free list of addresses.
pub struct GuardianRegistry {
    entries: Vec<Entry>,
}

impl GuardianRegistry {
    pub closed spec fn wf(&self) -> bool {
        &&& forall|i: int, j: int|
            0 <= i < self.entries@.len() && 0 <= j < self.entries@.len() && i != j
                ==> self.entries@[i].owner@ != self.entries@[j].owner@
        &&& forall|i: int| 0 <= i < self.entries@.len()
            ==> text_views(#[trigger] self.entries@[i].addresses@).no_duplicates()
    }

    closed spec fn holds(&self, owner: Seq<u8>, i: int) -> bool {
        0 <= i < self.entries@.len() && self.entries@[i].owner@ == owner
    }

    /// The addresses registered by an identity; empty for one never seen.
    pub closed spec fn guardians_of(&self, owner: Seq<u8>) -> Seq<Seq<char>> {
        if exists|i: int| self.holds(owner, i) {
            text_views(self.entries@[choose|i: int| self.holds(owner, i)].addresses@)
        } else {
            Seq::empty()
        }
    }

    proof fn lemma_at(&self, owner: Seq<u8>, i: int)
        requires
            self.wf(),
            self.holds(owner, i),
        ensures
            self.guardians_of(owner) == text_views(self.entries@[i].addresses@),
    {
        let j = choose|j: int| self.holds(owner, j);
        assert(self.holds(owner, j));
    }

    proof fn lemma_absent(&self, owner: Seq<u8>)
        requires
            forall|i: int| 0 <= i < self.entries@.len() ==> self.entries@[i].owner@ != owner,
        ensures
            self.guardians_of(owner) == Seq::<Seq<char>>::empty(),
    {
    }

    /// Each identity's addresses are free of duplicates.
    pub proof fn lemma_no_duplicates(&self, owner: Seq<u8>)
        requires
            self.wf(),
        ensures
            self.guardians_of(owner).no_duplicates(),
    {
        if exists|i: int| self.holds(owner, i) {
            let i = choose|i: int| self.holds(owner, i);
            self.lemma_at(owner, i);
        }
    }

    pub fn new() -> (r: GuardianRegistry)
        ensures
            r.wf(),
            forall|o: Seq<u8>| r.guardians_of(o) == Seq::<Seq<char>>::empty(),
    {
        GuardianRegistry { entries: Vec::new() }
    }

    fn find(&self, owner: &IdentityKey) -> (r: Option<usize>)
        ensures
            match r {
                Some(i) => self.holds(owner@, i as int),
                None => forall|i: int| 0 <= i < self.entries@.len() ==> self.entries@[i].owner@ != owner@,
            },
    {
        let mut i: usize = 0;
        while i < self.entries.len()
            invariant
                i <= self.entries@.len(),
                forall|j: int| 0 <= j < i ==> self.entries@[j].owner@ != owner@,
            decreases self.entries@.len() - i,
        {
            if self.entries[i].owner.same_as(owner) {
                return Some(i);
            }
            i = i + 1;
        }
        None
    }

    fn position(list: &Vec<String>, address: &String) -> (r: bool)
        ensures
            r == text_views(list@).contains(address@),
    {
        let mut i: usize = 0;
        while i < list.len()
            invariant
                i <= list@.len(),
                forall|j: int| 0 <= j < i ==> list@[j]@ != address@,
            decreases list@.len() - i,
        {
            if list[i] == *address {
                assert(text_views(list@)[i as int] == address@);
                return true;
            }
            i = i + 1;
        }
        assert(!text_views(list@).contains(address@)) by {
            if text_views(list@).contains(address@) {
                let k = choose|k: int| 0 <= k < list@.len() && text_views(list@)[k] == address@;
                assert(list@[k]@ == address@);
            }
        }
        false
    }

    /// Whether an identity registered an address.
    pub fn is_guardian_of(&self, owner: &IdentityKey, address: &String) -> (r: bool)
        requires
            self.wf(),
        ensures
            r == self.guardians_of(owner@).contains(address@),
    {
        match self.find(owner) {
            Some(i) => {
                proof {
                    self.lemma_at(owner@, i as int);
                }
                Self::position(&self.entries[i].addresses, address)
            },
            None => {
                proof {
                    self.lemma_absent(owner@);
                }
                false
            },
        }
    }

    /// Registers an address under an identity, unless it is already there.
    pub fn add(&mut self, owner: &IdentityKey, address: String) -> (r: AddOutcome)
        requires
            old(self).wf(),
        ensures
            final(self).wf(),
            old(self).guardians_of(owner@).contains(address@) ==> r == AddOutcome::AlreadyExists
                && final(self).guardians_of(owner@) == old(self).guardians_of(owner@),
            !old(self).guardians_of(owner@).contains(address@) ==> r == AddOutcome::Added
                && final(self).guardians_of(owner@) == old(self).guardians_of(owner@).push(
                address@,
            ),
            forall|o: Seq<u8>| o != owner@ ==> final(self).guardians_of(o) == old(self).guardians_of(o),
    {
        let ghost pre = *self;
        let ghost a = address@;
        match self.find(owner) {
            Some(i) => {
                proof {
                    pre.lemma_at(owner@, i as int);
                }
                if Self::position(&self.entries[i].addresses, &address) {
                    return AddOutcome::AlreadyExists;
                }
                self.entries[i].addresses.push(address);
                proof {
                    assert(text_views(self.entries@[i as int].addresses@) =~= text_views(
                        pre.entries@[i as int].addresses@,
                    ).push(a));
                    assert(self.holds(owner@, i as int));
                    assert forall|k: int| 0 <= k < self.entries@.len()
                        implies text_views(#[trigger] self.entries@[k].addresses@).no_duplicates() by {
                        if k != i {
                            assert(self.entries@[k] == pre.entries@[k]);
                        }
                    }
                    self.lemma_at(owner@, i as int);
                    assert forall|o: Seq<u8>| o != owner@ implies self.guardians_of(o)
                        == pre.guardians_of(o) by {
                        if exists|j: int| pre.holds(o, j) {
                            let j = choose|j: int| pre.holds(o, j);
                            pre.lemma_at(o, j);
                            assert(self.holds(o, j));
                            self.lemma_at(o, j);
                        } else {
                            assert forall|j: int| 0 <= j < self.entries@.len() implies self.entries@[j].owner@ != o by {
                                assert(!pre.holds(o, j));
                            }
                            self.lemma_absent(o);
                        }
                    }
                }
                AddOutcome::Added
            },
            None => {
                proof {
                    pre.lemma_absent(owner@);
                }
                let mut addresses: Vec<String> = Vec::new();
                addresses.push(address);
                self.entries.push(Entry { owner: owner.duplicate(), addresses });
                proof {
                    let k = pre.entries@.len() as int;
                    assert(text_views(self.entries@[k].addresses@) =~= seq![a]);
                    assert(Seq::<Seq<char>>::empty().push(a) =~= seq![a]);
                    assert(self.holds(owner@, k));
                    assert forall|m: int| 0 <= m < self.entries@.len()
                        implies text_views(#[trigger] self.entries@[m].addresses@).no_duplicates() by {
                        if m != k {
                            assert(self.entries@[m] == pre.entries@[m]);
                        }
                    }
                    self.lemma_at(owner@, k);
                    assert forall|o: Seq<u8>| o != owner@ implies self.guardians_of(o)
                        == pre.guardians_of(o) by {
                        if exists|j: int| pre.holds(o, j) {
                            let j = choose|j: int| pre.holds(o, j);
                            pre.lemma_at(o, j);
                            assert(self.holds(o, j));
                            self.lemma_at(o, j);
                        } else {
                            assert forall|j: int| 0 <= j < self.entries@.len() implies self.entries@[j].owner@ != o by {
                                if j < k {
                                    assert(!pre.holds(o, j));
                                }
                            }
                            self.lemma_absent(o);
                        }
                    }
                }
                AddOutcome::Added
            },
        }
    }

    /// The addresses registered by an identity; empty for one never seen.
    pub fn list(&self, owner: &IdentityKey) -> (r: Vec<String>)
        requires
            self.wf(),
        ensures
            text_views(r@) == self.guardians_of(owner@),
    {
        let mut out: Vec<String> = Vec::new();
        match self.find(owner) {
            Some(p) => {
                proof {
                    self.lemma_at(owner@, p as int);
                }
                let list = &self.entries[p].addresses;
                let mut i: usize = 0;
                while i < list.len()
                    invariant
                        i <= list@.len(),
                        out@.len() == i,
                        forall|j: int| 0 <= j < i ==> out@[j]@ == list@[j]@,
                    decreases list@.len() - i,
                {
                    out.push(list[i].clone());
                    i = i + 1;
                }
                assert(text_views(out@) =~= text_views(list@));
            },
            None => {
                proof {
                    self.lemma_absent(owner@);
                }
                assert(text_views(out@) =~= Seq::<Seq<char>>::empty());
            },
        }
        out
    }
}

} // verus!
