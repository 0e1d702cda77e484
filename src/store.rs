use vstd::prelude::*;
use crate::identity::IdentityKey;

verus! {

/// One sealed secret, as stored.
#[derive(Debug, PartialEq, Eq)]
pub struct Capsule {
    pub encrypted_message: String,
    pub unlock_time: u64,
    pub created_at: u64,
    pub is_unlocked: bool,
}

/// The mathematical value of a capsule.
pub ghost struct CapsuleView {
    pub encrypted_message: Seq<char>,
    pub unlock_time: u64,
    pub created_at: u64,
    pub is_unlocked: bool,
}

impl View for Capsule {
    type V = CapsuleView;

    open spec fn view(&self) -> CapsuleView {
        CapsuleView {
            encrypted_message: self.encrypted_message@,
            unlock_time: self.unlock_time,
            created_at: self.created_at,
            is_unlocked: self.is_unlocked,
        }
    }
}

/// A capsule after release: the same record, marked unlocked.
pub open spec fn released(c: CapsuleView) -> CapsuleView {
    CapsuleView { is_unlocked: true, ..c }
}

/// The views of a sequence of capsules.
pub open spec fn capsule_views(s: Seq<Capsule>) -> Seq<CapsuleView> {
    s.map_values(|c: Capsule| c@)
}

impl Capsule {
    /// A copy with the same contents.
    pub fn duplicate(&self) -> (r: Capsule)
        ensures
            r@ == self@,
    {
        Capsule {
            encrypted_message: self.encrypted_message.clone(),
            unlock_time: self.unlock_time,
            created_at: self.created_at,
            is_unlocked: self.is_unlocked,
        }
    }
}

/// The capsules of one owner, in the order of their creation.
struct Partition {
    owner: IdentityKey,
    capsules: Vec<Capsule>,
}

/// All capsules, partitioned by owner; each owner has at most one partition.
pub struct CapsuleStore {
    parts: Vec<Partition>,
}

impl CapsuleStore {
    pub closed spec fn wf(&self) -> bool {
        forall|i: int, j: int|
            0 <= i < self.parts@.len() && 0 <= j < self.parts@.len() && i != j
                ==> self.parts@[i].owner@ != self.parts@[j].owner@
    }

    closed spec fn holds(&self, owner: Seq<u8>, i: int) -> bool {
        0 <= i < self.parts@.len() && self.parts@[i].owner@ == owner
    }

    /// The capsules of an owner, oldest first; empty for an owner never seen.
    pub closed spec fn capsules_of(&self, owner: Seq<u8>) -> Seq<CapsuleView> {
        if exists|i: int| self.holds(owner, i) {
            capsule_views(self.parts@[choose|i: int| self.holds(owner, i)].capsules@)
        } else {
            Seq::empty()
        }
    }

    proof fn lemma_at(&self, owner: Seq<u8>, i: int)
        requires
            self.wf(),
            self.holds(owner, i),
        ensures
            self.capsules_of(owner) == capsule_views(self.parts@[i].capsules@),
    {
        let j = choose|j: int| self.holds(owner, j);
        assert(self.holds(owner, j));
    }

    proof fn lemma_absent(&self, owner: Seq<u8>)
        requires
            forall|i: int| 0 <= i < self.parts@.len() ==> self.parts@[i].owner@ != owner,
        ensures
            self.capsules_of(owner) == Seq::<CapsuleView>::empty(),
    {
    }

    pub fn new() -> (r: CapsuleStore)
        ensures
            r.wf(),
            forall|o: Seq<u8>| r.capsules_of(o) == Seq::<CapsuleView>::empty(),
    {
        CapsuleStore { parts: Vec::new() }
    }

    fn find(&self, owner: &IdentityKey) -> (r: Option<usize>)
        ensures
            match r {
                Some(i) => self.holds(owner@, i as int),
                None => forall|i: int| 0 <= i < self.parts@.len() ==> self.parts@[i].owner@ != owner@,
            },
    {
        let mut i: usize = 0;
        while i < self.parts.len()
            invariant
                i <= self.parts@.len(),
                forall|j: int| 0 <= j < i ==> self.parts@[j].owner@ != owner@,
            decreases self.parts@.len() - i,
        {
            if self.parts[i].owner.same_as(owner) {
                return Some(i);
            }
            i = i + 1;
        }
        None
    }

    /// Appends a capsule to its owner's sequence and returns its position there.
    pub fn create(&mut self, owner: &IdentityKey, capsule: Capsule) -> (r: usize)
        requires
            old(self).wf(),
        ensures
            final(self).wf(),
            r == old(self).capsules_of(owner@).len(),
            final(self).capsules_of(owner@) == old(self).capsules_of(owner@).push(capsule@),
            forall|o: Seq<u8>| o != owner@ ==> final(self).capsules_of(o) == old(self).capsules_of(o),
    {
        let ghost pre = *self;
        let ghost cv = capsule@;
        match self.find(owner) {
            Some(i) => {
                proof {
                    pre.lemma_at(owner@, i as int);
                }
                let r = self.parts[i].capsules.len();
                self.parts[i].capsules.push(capsule);
                proof {
                    assert(self.holds(owner@, i as int));
                    self.lemma_at(owner@, i as int);
                    assert(capsule_views(self.parts@[i as int].capsules@) =~= capsule_views(
                        pre.parts@[i as int].capsules@,
                    ).push(cv));
                    assert forall|o: Seq<u8>| o != owner@ implies self.capsules_of(o)
                        == pre.capsules_of(o) by {
                        if exists|j: int| pre.holds(o, j) {
                            let j = choose|j: int| pre.holds(o, j);
                            pre.lemma_at(o, j);
                            assert(self.holds(o, j));
                            self.lemma_at(o, j);
                        } else {
                            assert forall|j: int| 0 <= j < self.parts@.len() implies self.parts@[j].owner@ != o by {
                                assert(!pre.holds(o, j));
                            }
                            self.lemma_absent(o);
                        }
                    }
                }
                r
            },
            None => {
                proof {
                    pre.lemma_absent(owner@);
                }
                let mut capsules: Vec<Capsule> = Vec::new();
                capsules.push(capsule);
                self.parts.push(Partition { owner: owner.duplicate(), capsules });
                proof {
                    let k = pre.parts@.len() as int;
                    assert(self.holds(owner@, k));
                    self.lemma_at(owner@, k);
                    assert(capsule_views(self.parts@[k].capsules@) =~= seq![cv]);
                    assert(Seq::<CapsuleView>::empty().push(cv) =~= seq![cv]);
                    assert forall|o: Seq<u8>| o != owner@ implies self.capsules_of(o)
                        == pre.capsules_of(o) by {
                        if exists|j: int| pre.holds(o, j) {
                            let j = choose|j: int| pre.holds(o, j);
                            pre.lemma_at(o, j);
                            assert(self.holds(o, j));
                            self.lemma_at(o, j);
                        } else {
                            assert forall|j: int| 0 <= j < self.parts@.len() implies self.parts@[j].owner@ != o by {
                                if j < k {
                                    assert(!pre.holds(o, j));
                                }
                            }
                            self.lemma_absent(o);
                        }
                    }
                }
                0
            },
        }
    }

    /// A snapshot of an owner's capsules; empty for an owner never seen.
    pub fn list(&self, owner: &IdentityKey) -> (r: Vec<Capsule>)
        requires
            self.wf(),
        ensures
            capsule_views(r@) == self.capsules_of(owner@),
    {
        let mut out: Vec<Capsule> = Vec::new();
        match self.find(owner) {
            Some(p) => {
                proof {
                    self.lemma_at(owner@, p as int);
                }
                let caps = &self.parts[p].capsules;
                let mut i: usize = 0;
                while i < caps.len()
                    invariant
                        i <= caps@.len(),
                        out@.len() == i,
                        forall|j: int| 0 <= j < i ==> out@[j]@ == caps@[j]@,
                    decreases caps@.len() - i,
                {
                    out.push(caps[i].duplicate());
                    i = i + 1;
                }
                assert(capsule_views(out@) =~= capsule_views(caps@));
            },
            None => {
                proof {
                    self.lemma_absent(owner@);
                }
                assert(capsule_views(out@) =~= Seq::<CapsuleView>::empty());
            },
        }
        out
    }
    /// The capsule at a position of an owner's sequence; `None` where the owner
    /// has no capsule there.
    pub fn get(&self, owner: &IdentityKey, index: usize) -> (r: Option<&Capsule>)
        requires
            self.wf(),
        ensures
            match r {
                Some(c) => index < self.capsules_of(owner@).len() && c@ == self.capsules_of(
                    owner@,
                )[index as int],
                None => index >= self.capsules_of(owner@).len(),
            },
    {
        match self.find(owner) {
            Some(p) => {
                proof {
                    self.lemma_at(owner@, p as int);
                }
                if index < self.parts[p].capsules.len() {
                    Some(&self.parts[p].capsules[index])
                } else {
                    None
                }
            },
            None => {
                proof {
                    self.lemma_absent(owner@);
                }
                None
            },
        }
    }

    /// Marks the capsule at a position of an owner's sequence as unlocked.
    pub fn set_unlocked(&mut self, owner: &IdentityKey, index: usize)
        requires
            old(self).wf(),
            index < old(self).capsules_of(owner@).len(),
        ensures
            final(self).wf(),
            final(self).capsules_of(owner@) == old(self).capsules_of(owner@).update(
                index as int,
                released(old(self).capsules_of(owner@)[index as int]),
            ),
            forall|o: Seq<u8>| o != owner@ ==> final(self).capsules_of(o) == old(self).capsules_of(o),
    {
        let ghost pre = *self;
        match self.find(owner) {
            Some(p) => {
                proof {
                    pre.lemma_at(owner@, p as int);
                }
                self.parts[p].capsules[index].is_unlocked = true;
                proof {
                    assert(self.holds(owner@, p as int));
                    self.lemma_at(owner@, p as int);
                    assert(capsule_views(self.parts@[p as int].capsules@) =~= capsule_views(
                        pre.parts@[p as int].capsules@,
                    ).update(index as int, released(pre.capsules_of(owner@)[index as int])));
                    assert forall|o: Seq<u8>| o != owner@ implies self.capsules_of(o)
                        == pre.capsules_of(o) by {
                        if exists|j: int| pre.holds(o, j) {
                            let j = choose|j: int| pre.holds(o, j);
                            pre.lemma_at(o, j);
                            assert(self.holds(o, j));
                            self.lemma_at(o, j);
                        } else {
                            assert forall|j: int| 0 <= j < self.parts@.len() implies self.parts@[j].owner@ != o by {
                                assert(!pre.holds(o, j));
                            }
                            self.lemma_absent(o);
                        }
                    }
                }
            },
            None => {
                proof {
                    pre.lemma_absent(owner@);
                }
            },
        }
    }
}

} // verus!
