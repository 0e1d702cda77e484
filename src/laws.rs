use vstd::prelude::*;
use crate::cipher::{lemma_opened_sealed, opened, sealed};
use crate::guardians::AddOutcome;
use crate::service::{
    add_step, forced_step, guardian_step, unlock_step, CapsuleService, GuardianUnlockOutcome, UnlockOutcome,
};
use crate::store::CapsuleView;

verus! {

/// Right after a capsule is created from a plaintext, the last of the owner's
/// capsules decrypts to that plaintext.
pub proof fn lemma_created_capsule_opens(
    pre: &CapsuleService,
    post: &CapsuleService,
    owner: Seq<u8>,
    plaintext: Seq<char>,
    unlock_time: u64,
    created_at: u64,
)
    requires
        post.capsules_of(owner) == pre.capsules_of(owner).push(
            CapsuleView {
                encrypted_message: sealed(plaintext),
                unlock_time,
                created_at,
                is_unlocked: false,
            },
        ),
    ensures
        post.capsules_of(owner).len() > 0,
        opened(post.capsules_of(owner).last().encrypted_message) == plaintext,
{
    lemma_opened_sealed(plaintext);
}

/// A sealed capsule stays sealed while its unlock time has not come and the
/// unlock reports not-ready; once it has, unlocking returns the plaintext and
/// releases the capsule; unlocking again returns the plaintext and changes
/// nothing.
pub proof fn lemma_time_gate(
    s0: &CapsuleService,
    s1: &CapsuleService,
    s2: &CapsuleService,
    s3: &CapsuleService,
    owner: Seq<u8>,
    capsule_index: u32,
    plaintext: Seq<char>,
    early: u64,
    due: u64,
    later: u64,
    r1: UnlockOutcome,
    r2: UnlockOutcome,
    r3: UnlockOutcome,
)
    requires
        (capsule_index as int) < s0.capsules_of(owner).len(),
        s0.capsules_of(owner)[capsule_index as int].encrypted_message == sealed(plaintext),
        !s0.capsules_of(owner)[capsule_index as int].is_unlocked,
        early < s0.capsules_of(owner)[capsule_index as int].unlock_time,
        due >= s0.capsules_of(owner)[capsule_index as int].unlock_time,
        later >= s0.capsules_of(owner)[capsule_index as int].unlock_time,
        unlock_step(s0, s1, owner, early, capsule_index, r1),
        unlock_step(s1, s2, owner, due, capsule_index, r2),
        unlock_step(s2, s3, owner, later, capsule_index, r3),
    ensures
        r1 is NotReady,
        !s1.capsules_of(owner)[capsule_index as int].is_unlocked,
        r2 matches UnlockOutcome::Unlocked(p) && p@ == plaintext,
        s2.capsules_of(owner)[capsule_index as int].is_unlocked,
        r3 matches UnlockOutcome::Unlocked(p) && p@ == plaintext,
        s3.capsules_of(owner) == s2.capsules_of(owner),
{
    lemma_opened_sealed(plaintext);
    let i = capsule_index as int;
    let c2 = s2.capsules_of(owner);
    assert(c2.update(i, crate::store::released(c2[i])) =~= c2);
}

/// Registering the same address twice: the first call adds it, the second
/// reports that it exists and changes nothing; an identity that had no
/// guardians then has exactly one.
pub proof fn lemma_add_guardian_twice(
    s0: &CapsuleService,
    s1: &CapsuleService,
    s2: &CapsuleService,
    owner: Seq<u8>,
    address: Seq<char>,
    r1: AddOutcome,
    r2: AddOutcome,
)
    requires
        add_step(s0, s1, owner, address, r1),
        add_step(s1, s2, owner, address, r2),
    ensures
        r2 == AddOutcome::AlreadyExists,
        s2.guardians_of(owner) == s1.guardians_of(owner),
        s0.guardians_of(owner).len() == 0 ==> r1 == AddOutcome::Added && s2.guardians_of(
            owner,
        ).len() == 1,
{
    if !s0.guardians_of(owner).contains(address) {
        assert(s1.guardians_of(owner).last() == address);
        assert(s1.guardians_of(owner).contains(address));
    }
}

/// A caller that has not registered the owner address gets an unauthorized
/// outcome, and no capsule changes.
pub proof fn lemma_unregistered_guardian_refused(
    pre: &CapsuleService,
    post: &CapsuleService,
    caller: Seq<u8>,
    owner_address: Seq<char>,
    owner: Seq<u8>,
    capsule_index: u32,
    r: GuardianUnlockOutcome,
)
    requires
        !pre.guardians_of(caller).contains(owner_address),
        guardian_step(pre, post, caller, owner_address, Some(owner), capsule_index, r),
    ensures
        r is Unauthorized,
        forall|o: Seq<u8>| #[trigger] post.capsules_of(o) == pre.capsules_of(o),
{
}

/// A caller that has registered the owner address releases the owner's
/// capsule and gets its plaintext, whatever the capsule's unlock time and the
/// current time.
pub proof fn lemma_guardian_bypasses_time(
    pre: &CapsuleService,
    post: &CapsuleService,
    caller: Seq<u8>,
    owner_address: Seq<char>,
    owner: Seq<u8>,
    capsule_index: u32,
    plaintext: Seq<char>,
    r: GuardianUnlockOutcome,
)
    requires
        pre.guardians_of(caller).contains(owner_address),
        (capsule_index as int) < pre.capsules_of(owner).len(),
        pre.capsules_of(owner)[capsule_index as int].encrypted_message == sealed(plaintext),
        guardian_step(pre, post, caller, owner_address, Some(owner), capsule_index, r),
    ensures
        r matches GuardianUnlockOutcome::Unlocked(p) && p@ == plaintext,
        post.capsules_of(owner)[capsule_index as int].is_unlocked,
{
    lemma_opened_sealed(plaintext);
}

/// No capsule is removed or reordered, and a released capsule stays released,
/// whichever unlock an identity performs.
pub proof fn lemma_release_is_permanent(
    pre: &CapsuleService,
    post: &CapsuleService,
    caller: Seq<u8>,
    owner_address: Seq<char>,
    resolved: Option<Seq<u8>>,
    now: u64,
    capsule_index: u32,
    label: Seq<char>,
    text: Seq<char>,
    r1: UnlockOutcome,
    r2: GuardianUnlockOutcome,
)
    requires
        unlock_step(pre, post, caller, now, capsule_index, r1) || guardian_step(
            pre,
            post,
            caller,
            owner_address,
            resolved,
            capsule_index,
            r2,
        ) || forced_step(pre, post, caller, capsule_index, label, text),
    ensures
        forall|o: Seq<u8>|
            #![trigger post.capsules_of(o)]
            post.capsules_of(o).len() == pre.capsules_of(o).len() && forall|j: int|
                0 <= j < pre.capsules_of(o).len() && pre.capsules_of(o)[j].is_unlocked
                    ==> #[trigger] post.capsules_of(o)[j].is_unlocked,
{
    assert forall|o: Seq<u8>|
        #![trigger post.capsules_of(o)]
        post.capsules_of(o).len() == pre.capsules_of(o).len() && forall|j: int|
            0 <= j < pre.capsules_of(o).len() && pre.capsules_of(o)[j].is_unlocked
                ==> #[trigger] post.capsules_of(o)[j].is_unlocked by {
        assert(post.capsules_of(o) == pre.capsules_of(o) || exists|i: int|
            0 <= i < pre.capsules_of(o).len() && post.capsules_of(o) == pre.capsules_of(o).update(
                i,
                crate::store::released(pre.capsules_of(o)[i]),
            ));
    }
}

} // verus!
