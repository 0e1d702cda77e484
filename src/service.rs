use vstd::prelude::*;
use vstd::string::*;
use crate::cipher::{decrypt_message, encrypt_message, opened, sealed};
use crate::guardians::{AddOutcome, GuardianRegistry};
use crate::identity::{principal_bytes_of_text, IdentityKey};
use crate::store::{released, Capsule, CapsuleStore, CapsuleView};
use crate::text::{decimal, decimal_text};

verus! {

/// Nanoseconds in one day; timestamps count nanoseconds.
pub const NANOS_PER_DAY: u64 = 86_400_000_000_000;

/// A request to seal a secret for a number of days.
pub struct CreateCapsuleRequest {
    pub encrypted_message: String,
    pub unlock_delay_days: u32,
}

/// The unlock time of a capsule created at `now` with a delay in days.
pub open spec fn unlock_time_spec(now: u64, delay_days: u32) -> int {
    now as int + delay_days as int * NANOS_PER_DAY as int
}

/// The unlock time of a capsule created at `now`; `None` where it is past the
/// largest timestamp.
pub fn unlock_time_after(now: u64, delay_days: u32) -> (r: Option<u64>)
    ensures
        match r {
            Some(t) => t as int == unlock_time_spec(now, delay_days),
            None => unlock_time_spec(now, delay_days) > u64::MAX,
        },
{
    match (delay_days as u64).checked_mul(NANOS_PER_DAY) {
        Some(d) => now.checked_add(d),
        None => {
            assert(delay_days as int * NANOS_PER_DAY as int > u64::MAX);
            None
        },
    }
}

/// The confirmation that creation gives.
pub open spec fn creation_text(delay_days: u32) -> Seq<char> {
    "Encrypted time capsule created! Will unlock in "@ + decimal(delay_days as nat) + " days"@
}

/// The notice for a position where the owner has no capsule.
pub open spec fn not_found_text() -> Seq<char> {
    "Capsule not found!"@
}

/// The notice for a capsule whose unlock time has not come.
pub open spec fn not_ready_text() -> Seq<char> {
    "Capsule not ready to unlock yet!"@
}

/// The notice for a caller that does not guard the address.
pub open spec fn unauthorized_text() -> Seq<char> {
    "Unauthorized: You are not a guardian for this address"@
}

/// The notice for an owner address that is not a principal.
pub open spec fn invalid_address_text() -> Seq<char> {
    "Invalid address: not a principal"@
}

/// What an owner's time-gated unlock does: `post` and `r` after it on `pre`.
pub open spec fn unlock_step(
    pre: &CapsuleService,
    post: &CapsuleService,
    owner: Seq<u8>,
    now: u64,
    capsule_index: u32,
    r: UnlockOutcome,
) -> bool {
    let caps = pre.capsules_of(owner);
    let i = capsule_index as int;
    &&& post.capsules_kept_but(pre, owner)
    &&& post.guardians_kept(pre)
    &&& i >= caps.len() ==> r is NotFound && post.capsules_of(owner) == caps
    &&& i < caps.len() && now < caps[i].unlock_time ==> r is NotReady && post.capsules_of(owner)
        == caps
    &&& i < caps.len() && now >= caps[i].unlock_time ==> (r matches UnlockOutcome::Unlocked(s)
        && s@ == opened(caps[i].encrypted_message)) && post.capsules_of(owner) == caps.update(
        i,
        released(caps[i]),
    )
}

/// What registering a guardian address does: `post` and `r` after it on `pre`.
pub open spec fn add_step(
    pre: &CapsuleService,
    post: &CapsuleService,
    owner: Seq<u8>,
    address: Seq<char>,
    r: AddOutcome,
) -> bool {
    let g = pre.guardians_of(owner);
    &&& forall|o: Seq<u8>| #[trigger] post.capsules_of(o) == pre.capsules_of(o)
    &&& forall|o: Seq<u8>| o != owner ==> #[trigger] post.guardians_of(o) == pre.guardians_of(o)
    &&& g.contains(address) ==> r == AddOutcome::AlreadyExists && post.guardians_of(owner) == g
    &&& !g.contains(address) ==> r == AddOutcome::Added && post.guardians_of(owner) == g.push(
        address,
    )
}

/// What a guardian's emergency unlock does, once the owner address has been
/// resolved (`None` where it is not a principal): `post` and `r` after it on
/// `pre`. The capsule's unlock time plays no part.
pub open spec fn guardian_step(
    pre: &CapsuleService,
    post: &CapsuleService,
    caller: Seq<u8>,
    owner_address: Seq<char>,
    owner: Option<Seq<u8>>,
    capsule_index: u32,
    r: GuardianUnlockOutcome,
) -> bool {
    let i = capsule_index as int;
    match owner {
        None => r is InvalidAddress && post.unchanged_from(pre),
        Some(o) => {
            let caps = pre.capsules_of(o);
            if !pre.guardians_of(caller).contains(owner_address) {
                r is Unauthorized && post.unchanged_from(pre)
            } else if i >= caps.len() {
                r is NotFound && post.unchanged_from(pre)
            } else {
                &&& r matches GuardianUnlockOutcome::Unlocked(s) && s@ == opened(
                    caps[i].encrypted_message,
                )
                &&& post.capsules_of(o) == caps.update(i, released(caps[i]))
                &&& post.capsules_kept_but(pre, o)
                &&& post.guardians_kept(pre)
            }
        },
    }
}

/// The text of a forced unlock: `label` and the content, or the not-found
/// notice.
pub open spec fn forced_text(label: Seq<char>, content: Option<Seq<char>>) -> Seq<char> {
    match content {
        Some(c) => label + c,
        None => not_found_text(),
    }
}

/// Whether a forced unlock of an owner's capsule gave `post` and text `r`
/// after `pre`.
pub open spec fn forced_step(
    pre: &CapsuleService,
    post: &CapsuleService,
    owner: Seq<u8>,
    capsule_index: u32,
    label: Seq<char>,
    r: Seq<char>,
) -> bool {
    let caps = pre.capsules_of(owner);
    let i = capsule_index as int;
    &&& post.capsules_kept_but(pre, owner)
    &&& post.guardians_kept(pre)
    &&& i >= caps.len() ==> r == not_found_text() && post.capsules_of(owner) == caps
    &&& i < caps.len() ==> r == label + opened(caps[i].encrypted_message) && post.capsules_of(
        owner,
    ) == caps.update(i, released(caps[i]))
}

/// The caller shows ownership of a Bitcoin address; any non-empty address is
/// accepted.
pub fn verify_bitcoin_ownership(address: &str, message: &str, signature: &str) -> (r: bool)
    ensures
        r == (address@.len() > 0),
{
    !address.is_empty()
}

/// The balance reported for an address: a fixed amount.
pub fn get_bitcoin_balance(address: &str) -> (r: String)
    ensures
        r@ == "0.001 BTC"@,
{
    String::from_str("0.001 BTC")
}

/// The service's version string.
pub fn version() -> (r: String)
    ensures
        r@ == "BTC Time Capsule v1.0 (Rust)"@,
{
    String::from_str("BTC Time Capsule v1.0 (Rust)")
}

/// The outcome of an owner's time-gated unlock.
#[derive(Debug, PartialEq, Eq)]
pub enum UnlockOutcome {
    /// The capsule is released; the decrypted content.
    Unlocked(String),
    /// The unlock time has not come; nothing changed.
    NotReady,
    /// The owner has no capsule at that position.
    NotFound,
}

impl UnlockOutcome {
    /// The text shown to the caller.
    pub fn message(&self) -> (r: String)
        ensures
            match self {
                UnlockOutcome::Unlocked(s) => r@ == s@,
                UnlockOutcome::NotReady => r@ == not_ready_text(),
                UnlockOutcome::NotFound => r@ == not_found_text(),
            },
    {
        match self {
            UnlockOutcome::Unlocked(s) => s.clone(),
            UnlockOutcome::NotReady => String::from_str("Capsule not ready to unlock yet!"),
            UnlockOutcome::NotFound => String::from_str("Capsule not found!"),
        }
    }
}

/// The outcome of a guardian's emergency unlock.
#[derive(Debug, PartialEq, Eq)]
pub enum GuardianUnlockOutcome {
    /// The capsule is released; the decrypted content.
    Unlocked(String),
    /// The owner address is not the textual form of a principal.
    InvalidAddress,
    /// The caller has not registered the owner address as one it guards.
    Unauthorized,
    /// The owner has no capsule at that position.
    NotFound,
}

impl GuardianUnlockOutcome {
    /// The text shown to the caller.
    pub fn message(&self) -> (r: String)
        ensures
            match self {
                GuardianUnlockOutcome::Unlocked(s) => r@ == "EMERGENCY UNLOCK by guardian: "@ + s@,
                GuardianUnlockOutcome::InvalidAddress => r@ == invalid_address_text(),
                GuardianUnlockOutcome::Unauthorized => r@ == unauthorized_text(),
                GuardianUnlockOutcome::NotFound => r@ == not_found_text(),
            },
    {
        match self {
            GuardianUnlockOutcome::Unlocked(s) => String::from_str(
                "EMERGENCY UNLOCK by guardian: ",
            ).concat(s.as_str()),
            GuardianUnlockOutcome::InvalidAddress => String::from_str(
                "Invalid address: not a principal",
            ),
            GuardianUnlockOutcome::Unauthorized => String::from_str(
                "Unauthorized: You are not a guardian for this address",
            ),
            GuardianUnlockOutcome::NotFound => String::from_str("Capsule not found!"),
        }
    }
}

impl AddOutcome {
    /// The text shown to the caller that registered `address`.
    pub fn message(&self, address: &str) -> (r: String)
        ensures
            match self {
                AddOutcome::Added => r@ == "Guardian "@ + address@ + " added successfully!"@,
                AddOutcome::AlreadyExists => r@ == "Guardian already exists!"@,
            },
    {
        match self {
            AddOutcome::Added => String::from_str("Guardian ").concat(address).concat(
                " added successfully!",
            ),
            AddOutcome::AlreadyExists => String::from_str("Guardian already exists!"),
        }
    }
}

/// The capsule service: every owner's capsules and every identity's guardian
/// addresses.
pub struct CapsuleService {
    store: CapsuleStore,
    guardians: GuardianRegistry,
}

impl CapsuleService {
    pub closed spec fn wf(&self) -> bool {
        self.store.wf() && self.guardians.wf()
    }

    /// The capsules of an owner, oldest first.
    pub closed spec fn capsules_of(&self, owner: Seq<u8>) -> Seq<CapsuleView> {
        self.store.capsules_of(owner)
    }

    /// The guardian addresses that an identity registered, in order of addition.
    pub closed spec fn guardians_of(&self, owner: Seq<u8>) -> Seq<Seq<char>> {
        self.guardians.guardians_of(owner)
    }

    /// Every owner's capsules are as in `prev`, but perhaps those of `owner`.
    pub open spec fn capsules_kept_but(&self, prev: &CapsuleService, owner: Seq<u8>) -> bool {
        forall|o: Seq<u8>| o != owner ==> #[trigger] self.capsules_of(o) == prev.capsules_of(o)
    }

    /// Every identity's guardian addresses are as in `prev`.
    pub open spec fn guardians_kept(&self, prev: &CapsuleService) -> bool {
        forall|o: Seq<u8>| #[trigger] self.guardians_of(o) == prev.guardians_of(o)
    }

    /// Nothing differs from `prev`.
    pub open spec fn unchanged_from(&self, prev: &CapsuleService) -> bool {
        &&& forall|o: Seq<u8>| #[trigger] self.capsules_of(o) == prev.capsules_of(o)
        &&& self.guardians_kept(prev)
    }

    pub fn new() -> (r: CapsuleService)
        ensures
            r.wf(),
            forall|o: Seq<u8>| r.capsules_of(o) == Seq::<CapsuleView>::empty(),
            forall|o: Seq<u8>| r.guardians_of(o) == Seq::<Seq<char>>::empty(),
    {
        CapsuleService { store: CapsuleStore::new(), guardians: GuardianRegistry::new() }
    }

    /// Seals a secret for the caller; it may be unlocked normally once the
    /// delay has passed.
    pub fn create_capsule(&mut self, caller: &IdentityKey, now: u64, request: CreateCapsuleRequest) -> (r: String)
        requires
            old(self).wf(),
            unlock_time_spec(now, request.unlock_delay_days) <= u64::MAX,
        ensures
            final(self).wf(),
            final(self).capsules_of(caller@) == old(self).capsules_of(caller@).push(
                CapsuleView {
                    encrypted_message: sealed(request.encrypted_message@),
                    unlock_time: unlock_time_spec(now, request.unlock_delay_days) as u64,
                    created_at: now,
                    is_unlocked: false,
                },
            ),
            final(self).capsules_kept_but(old(self), caller@),
            final(self).guardians_kept(old(self)),
            r@ == creation_text(request.unlock_delay_days),
    {
        let days = request.unlock_delay_days as u64;
        assert(days * NANOS_PER_DAY <= u64::MAX - now) by (nonlinear_arith)
            requires
                now as int + days as int * NANOS_PER_DAY as int <= u64::MAX,
        ;
        let unlock_time = now + days * NANOS_PER_DAY;
        let capsule = Capsule {
            encrypted_message: encrypt_message(request.encrypted_message.as_str()),
            unlock_time,
            created_at: now,
            is_unlocked: false,
        };
        self.store.create(caller, capsule);
        String::from_str("Encrypted time capsule created! Will unlock in ").concat(
            decimal_text(request.unlock_delay_days).as_str(),
        ).concat(" days")
    }

    /// A snapshot of the caller's capsules, oldest first.
    pub fn get_my_capsules(&self, caller: &IdentityKey) -> (r: Vec<Capsule>)
        requires
            self.wf(),
        ensures
            r@.map_values(|c: Capsule| c@) == self.capsules_of(caller@),
    {
        self.store.list(caller)
    }

    /// Decrypts and releases an owner's capsule, whatever its unlock time;
    /// `None` where the owner has none at that position.
    fn release(&mut self, owner: &IdentityKey, index: usize) -> (r: Option<String>)
        requires
            old(self).wf(),
        ensures
            final(self).wf(),
            final(self).capsules_kept_but(old(self), owner@),
            final(self).guardians_kept(old(self)),
            index >= old(self).capsules_of(owner@).len() ==> r is None && final(self).capsules_of(
                owner@,
            ) == old(self).capsules_of(owner@),
            index < old(self).capsules_of(owner@).len() ==> r is Some && r->0@ == opened(
                old(self).capsules_of(owner@)[index as int].encrypted_message,
            ) && final(self).capsules_of(owner@) == old(self).capsules_of(owner@).update(
                index as int,
                released(old(self).capsules_of(owner@)[index as int]),
            ),
    {
        let plain = match self.store.get(owner, index) {
            Some(c) => decrypt_message(c.encrypted_message.as_str()),
            None => {
                return None;
            },
        };
        self.store.set_unlocked(owner, index);
        Some(plain)
    }

    /// The owner's time-gated unlock: releases the capsule once its unlock
    /// time has come.
    pub fn unlock_capsule(&mut self, caller: &IdentityKey, now: u64, capsule_index: u32) -> (r: UnlockOutcome)
        requires
            old(self).wf(),
        ensures
            final(self).wf(),
            unlock_step(old(self), final(self), caller@, now, capsule_index, r),
    {
        let index = capsule_index as usize;
        let due = match self.store.get(caller, index) {
            Some(c) => now >= c.unlock_time,
            None => {
                return UnlockOutcome::NotFound;
            },
        };
        if !due {
            return UnlockOutcome::NotReady;
        }
        match self.release(caller, index) {
            Some(s) => UnlockOutcome::Unlocked(s),
            None => UnlockOutcome::NotFound,
        }
    }
    /// Releases the caller's own capsule at once, whatever its unlock time.
    pub fn test_unlock_now(&mut self, caller: &IdentityKey, capsule_index: u32) -> (r: String)
        requires
            old(self).wf(),
        ensures
            final(self).wf(),
            forced_step(old(self), final(self), caller@, capsule_index, "TEST UNLOCK: "@, r@),
    {
        match self.release(caller, capsule_index as usize) {
            Some(s) => String::from_str("TEST UNLOCK: ").concat(s.as_str()),
            None => String::from_str("Capsule not found!"),
        }
    }

    /// Releases the caller's own capsule at once, labelled as a guardian's
    /// emergency release.
    pub fn test_guardian_unlock(&mut self, caller: &IdentityKey, capsule_index: u32) -> (r: String)
        requires
            old(self).wf(),
        ensures
            final(self).wf(),
            forced_step(
                old(self),
                final(self),
                caller@,
                capsule_index,
                "GUARDIAN EMERGENCY UNLOCK: "@,
                r@,
            ),
    {
        match self.release(caller, capsule_index as usize) {
            Some(s) => String::from_str("GUARDIAN EMERGENCY UNLOCK: ").concat(s.as_str()),
            None => String::from_str("Capsule not found!"),
        }
    }

    /// Registers an address that the caller guards.
    pub fn add_guardian(&mut self, caller: &IdentityKey, guardian_address: String) -> (r: AddOutcome)
        requires
            old(self).wf(),
        ensures
            final(self).wf(),
            add_step(old(self), final(self), caller@, guardian_address@, r),
    {
        self.guardians.add(caller, guardian_address)
    }

    /// The addresses that the caller registered, in order of addition.
    pub fn get_my_guardians(&self, caller: &IdentityKey) -> (r: Vec<String>)
        requires
            self.wf(),
        ensures
            r@.map_values(|t: String| t@) == self.guardians_of(caller@),
            self.guardians_of(caller@).no_duplicates(),
    {
        proof {
            self.guardians.lemma_no_duplicates(caller@);
        }
        self.guardians.list(caller)
    }

    /// A guardian's emergency unlock, with the owner address already resolved:
    /// `owner` is the principal that `guardian_address` denotes, or `None`
    /// where it denotes none.
    pub fn guardian_unlock_resolved(
        &mut self,
        caller: &IdentityKey,
        guardian_address: &String,
        owner: Option<IdentityKey>,
        capsule_index: u32,
    ) -> (r: GuardianUnlockOutcome)
        requires
            old(self).wf(),
        ensures
            final(self).wf(),
            guardian_step(
                old(self),
                final(self),
                caller@,
                guardian_address@,
                match owner {
                    Some(k) => Some(k@),
                    None => None,
                },
                capsule_index,
                r,
            ),
    {
        let owner = match owner {
            Some(k) => k,
            None => {
                return GuardianUnlockOutcome::InvalidAddress;
            },
        };
        if !self.guardians.is_guardian_of(caller, guardian_address) {
            return GuardianUnlockOutcome::Unauthorized;
        }
        match self.release(&owner, capsule_index as usize) {
            Some(s) => GuardianUnlockOutcome::Unlocked(s),
            None => GuardianUnlockOutcome::NotFound,
        }
    }

    /// A guardian's emergency unlock of the capsule of the owner that
    /// `guardian_address` denotes, bypassing the unlock time. The caller must
    /// have registered that address itself.
    pub fn guardian_unlock_capsule(
        &mut self,
        caller: &IdentityKey,
        guardian_address: String,
        capsule_index: u32,
    ) -> (r: GuardianUnlockOutcome)
        requires
            old(self).wf(),
        ensures
            final(self).wf(),
            guardian_step(
                old(self),
                final(self),
                caller@,
                guardian_address@,
                principal_bytes_of_text(guardian_address@),
                capsule_index,
                r,
            ),
    {
        let owner = IdentityKey::from_text(guardian_address.as_str());
        self.guardian_unlock_resolved(caller, &guardian_address, owner, capsule_index)
    }
}

} // verus!
