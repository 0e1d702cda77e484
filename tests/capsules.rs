use btc_time_capsule_backend::cipher::{decrypt_message, encrypt_message};
use btc_time_capsule_backend::guardians::AddOutcome;
use btc_time_capsule_backend::identity::IdentityKey;
use btc_time_capsule_backend::service::{
    get_bitcoin_balance, unlock_time_after, verify_bitcoin_ownership, version, CapsuleService,
    CreateCapsuleRequest, GuardianUnlockOutcome, UnlockOutcome, NANOS_PER_DAY,
};
use btc_time_capsule_backend::text::decimal_text;

fn key(b: &[u8]) -> IdentityKey {
    IdentityKey::from_bytes(b.to_vec())
}

fn request(text: &str, days: u32) -> CreateCapsuleRequest {
    CreateCapsuleRequest { encrypted_message: text.to_string(), unlock_delay_days: days }
}

#[test]
fn created_capsule_is_last_and_decrypts() {
    let mut s = CapsuleService::new();
    let a = key(&[7, 7]);
    s.create_capsule(&a, 10, request("first", 1));
    s.create_capsule(&a, 20, request("second secret", 2));
    let caps = s.get_my_capsules(&a);
    assert_eq!(caps.len(), 2);
    let last = &caps[1];
    assert_eq!(decrypt_message(&last.encrypted_message), "second secret");
    assert_eq!(last.encrypted_message, "encrypted_second secret");
    assert_eq!(last.created_at, 20);
    assert_eq!(last.unlock_time, 20 + 2 * 86_400_000_000_000);
    assert!(!last.is_unlocked);
}

#[test]
fn creation_message_names_the_delay() {
    let mut s = CapsuleService::new();
    let m = s.create_capsule(&key(&[1]), 0, request("x", 3));
    assert_eq!(m, "Encrypted time capsule created! Will unlock in 3 days");
    let m = s.create_capsule(&key(&[1]), 0, request("x", 120));
    assert_eq!(m, "Encrypted time capsule created! Will unlock in 120 days");
}

#[test]
fn unknown_owner_has_no_capsules_or_guardians() {
    let s = CapsuleService::new();
    assert!(s.get_my_capsules(&key(&[9])).is_empty());
    assert!(s.get_my_guardians(&key(&[9])).is_empty());
}

#[test]
fn owners_are_isolated() {
    let mut s = CapsuleService::new();
    s.create_capsule(&key(&[1]), 0, request("mine", 0));
    assert!(s.get_my_capsules(&key(&[2])).is_empty());
    assert_eq!(s.unlock_capsule(&key(&[2]), 5, 0), UnlockOutcome::NotFound);
    assert_eq!(s.get_my_capsules(&key(&[1])).len(), 1);
}

#[test]
fn time_gate_holds_until_unlock_time() {
    let mut s = CapsuleService::new();
    let a = key(&[3]);
    s.create_capsule(&a, 1_000, request("later", 1));
    let due = 1_000 + NANOS_PER_DAY;
    assert_eq!(s.unlock_capsule(&a, due - 1, 0), UnlockOutcome::NotReady);
    assert!(!s.get_my_capsules(&a)[0].is_unlocked);
    assert_eq!(s.unlock_capsule(&a, due, 0), UnlockOutcome::Unlocked("later".to_string()));
    assert!(s.get_my_capsules(&a)[0].is_unlocked);
    assert_eq!(s.unlock_capsule(&a, due + 50, 0), UnlockOutcome::Unlocked("later".to_string()));
    assert!(s.get_my_capsules(&a)[0].is_unlocked);
}

#[test]
fn zero_delay_unlocks_at_once() {
    let mut s = CapsuleService::new();
    let a = key(&[0xa]);
    s.create_capsule(&a, 500, request("now please", 0));
    assert_eq!(s.unlock_capsule(&a, 500, 0), UnlockOutcome::Unlocked("now please".to_string()));
    assert_eq!(s.unlock_capsule(&a, 900, 0), UnlockOutcome::Unlocked("now please".to_string()));
}

#[test]
fn unlock_beyond_last_capsule_is_not_found() {
    let mut s = CapsuleService::new();
    let a = key(&[4]);
    s.create_capsule(&a, 0, request("one", 0));
    s.create_capsule(&a, 0, request("two", 0));
    assert_eq!(s.unlock_capsule(&a, 10, 5), UnlockOutcome::NotFound);
    assert_eq!(s.unlock_capsule(&a, 10, 2), UnlockOutcome::NotFound);
    assert_eq!(UnlockOutcome::NotFound.message(), "Capsule not found!");
}

#[test]
fn unlock_messages() {
    assert_eq!(UnlockOutcome::NotReady.message(), "Capsule not ready to unlock yet!");
    assert_eq!(UnlockOutcome::Unlocked("hello".to_string()).message(), "hello");
}

#[test]
fn adding_a_guardian_twice_keeps_one() {
    let mut s = CapsuleService::new();
    let a = key(&[5]);
    assert_eq!(s.add_guardian(&a, "2vxsx-fae".to_string()), AddOutcome::Added);
    assert_eq!(s.add_guardian(&a, "2vxsx-fae".to_string()), AddOutcome::AlreadyExists);
    assert_eq!(s.get_my_guardians(&a), vec!["2vxsx-fae".to_string()]);
    assert_eq!(s.add_guardian(&a, "aaaaa-aa".to_string()), AddOutcome::Added);
    assert_eq!(s.get_my_guardians(&a), vec!["2vxsx-fae".to_string(), "aaaaa-aa".to_string()]);
    assert!(s.get_my_guardians(&key(&[6])).is_empty());
}

#[test]
fn guardian_messages() {
    assert_eq!(AddOutcome::Added.message("abc"), "Guardian abc added successfully!");
    assert_eq!(AddOutcome::AlreadyExists.message("abc"), "Guardian already exists!");
    assert_eq!(
        GuardianUnlockOutcome::Unlocked("s".to_string()).message(),
        "EMERGENCY UNLOCK by guardian: s"
    );
    assert_eq!(
        GuardianUnlockOutcome::Unauthorized.message(),
        "Unauthorized: You are not a guardian for this address"
    );
    assert_eq!(GuardianUnlockOutcome::NotFound.message(), "Capsule not found!");
    assert_eq!(GuardianUnlockOutcome::InvalidAddress.message(), "Invalid address: not a principal");
}

#[test]
fn principal_text_parses_to_its_bytes() {
    assert_eq!(IdentityKey::from_text("2vxsx-fae"), Some(key(&[4])));
    assert_eq!(IdentityKey::from_text("aaaaa-aa"), Some(key(&[])));
    assert_eq!(IdentityKey::from_text("not a principal"), None);
}

#[test]
fn unregistered_guardian_is_unauthorized() {
    let mut s = CapsuleService::new();
    let owner = key(&[4]);
    let guardian = key(&[8, 8]);
    s.create_capsule(&owner, 0, request("will", 30));
    let r = s.guardian_unlock_capsule(&guardian, "2vxsx-fae".to_string(), 0);
    assert_eq!(r, GuardianUnlockOutcome::Unauthorized);
    assert!(!s.get_my_capsules(&owner)[0].is_unlocked);
}

#[test]
fn registered_guardian_bypasses_the_time_gate() {
    let mut s = CapsuleService::new();
    let owner = key(&[4]);
    let guardian = key(&[8, 8]);
    s.create_capsule(&owner, 0, request("will", 30));
    s.add_guardian(&guardian, "2vxsx-fae".to_string());
    assert_eq!(s.unlock_capsule(&owner, 1, 0), UnlockOutcome::NotReady);
    let r = s.guardian_unlock_capsule(&guardian, "2vxsx-fae".to_string(), 0);
    assert_eq!(r, GuardianUnlockOutcome::Unlocked("will".to_string()));
    assert!(s.get_my_capsules(&owner)[0].is_unlocked);
    let r = s.guardian_unlock_capsule(&guardian, "2vxsx-fae".to_string(), 1);
    assert_eq!(r, GuardianUnlockOutcome::NotFound);
}

#[test]
fn guardian_unlock_rejects_unparseable_address() {
    let mut s = CapsuleService::new();
    let guardian = key(&[8]);
    s.add_guardian(&guardian, "nobody".to_string());
    let r = s.guardian_unlock_capsule(&guardian, "nobody".to_string(), 0);
    assert_eq!(r, GuardianUnlockOutcome::InvalidAddress);
}

#[test]
fn guardian_unlock_with_resolved_owner() {
    let mut s = CapsuleService::new();
    let owner = key(&[1, 2, 3]);
    let guardian = key(&[9]);
    s.create_capsule(&owner, 0, request("deed", 10));
    let addr = "owner-text".to_string();
    let r = s.guardian_unlock_resolved(&guardian, &addr, Some(owner.clone()), 0);
    assert_eq!(r, GuardianUnlockOutcome::Unauthorized);
    s.add_guardian(&guardian, addr.clone());
    let r = s.guardian_unlock_resolved(&guardian, &addr, None, 0);
    assert_eq!(r, GuardianUnlockOutcome::InvalidAddress);
    let r = s.guardian_unlock_resolved(&guardian, &addr, Some(owner.clone()), 0);
    assert_eq!(r, GuardianUnlockOutcome::Unlocked("deed".to_string()));
}

#[test]
fn forced_unlocks_label_their_result() {
    let mut s = CapsuleService::new();
    let a = key(&[2]);
    s.create_capsule(&a, 0, request("p", 99));
    assert_eq!(s.test_unlock_now(&a, 0), "TEST UNLOCK: p");
    assert!(s.get_my_capsules(&a)[0].is_unlocked);
    assert_eq!(s.test_guardian_unlock(&a, 0), "GUARDIAN EMERGENCY UNLOCK: p");
    assert_eq!(s.test_unlock_now(&a, 1), "Capsule not found!");
    assert_eq!(s.test_guardian_unlock(&a, 4), "Capsule not found!");
}

#[test]
fn seal_and_open() {
    assert_eq!(encrypt_message("hi"), "encrypted_hi");
    assert_eq!(encrypt_message(""), "encrypted_");
    assert_eq!(decrypt_message("encrypted_hi"), "hi");
    assert_eq!(decrypt_message("encrypted_encrypted_x"), "encrypted_x");
    assert_eq!(decrypt_message("plain"), "plain");
    assert_eq!(decrypt_message(&encrypt_message("a encrypted_ b")), "a encrypted_ b");
}

#[test]
fn decimal_forms() {
    assert_eq!(decimal_text(0), "0");
    assert_eq!(decimal_text(7), "7");
    assert_eq!(decimal_text(42), "42");
    assert_eq!(decimal_text(1000), "1000");
    assert_eq!(decimal_text(u32::MAX), "4294967295");
}

#[test]
fn unlock_time_is_checked() {
    assert_eq!(unlock_time_after(5, 0), Some(5));
    assert_eq!(unlock_time_after(5, 2), Some(5 + 2 * 86_400_000_000_000));
    assert_eq!(unlock_time_after(0, u32::MAX), None);
    assert_eq!(unlock_time_after(u64::MAX, 1), None);
}

#[test]
fn fixed_endpoints() {
    assert!(verify_bitcoin_ownership("bc1q", "m", "s"));
    assert!(!verify_bitcoin_ownership("", "m", "s"));
    assert_eq!(get_bitcoin_balance("bc1q"), "0.001 BTC");
    assert_eq!(version(), "BTC Time Capsule v1.0 (Rust)");
}
