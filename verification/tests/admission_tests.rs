use vote_hub::admission::AdmissionController;
use vote_hub::gateway::{check_origin, client_ip};
use vote_hub::identity::derive_identity;

#[test]
fn ceiling_is_enforced() {
    let mut a = AdmissionController::new();
    assert!(a.try_admit(42, 2));
    assert!(a.try_admit(42, 2));
    assert!(!a.try_admit(42, 2));
    assert_eq!(a.current(42), 2);
}

#[test]
fn ceiling_zero_admits_nobody() {
    let mut a = AdmissionController::new();
    assert!(!a.try_admit(1, 0));
    assert!(!a.has_slot(1));
}

#[test]
fn release_returns_to_zero_and_removes_entry() {
    let mut a = AdmissionController::new();
    assert!(a.try_admit(9, 3));
    assert!(a.try_admit(9, 3));
    assert!(a.has_slot(9));
    a.release(9);
    assert_eq!(a.current(9), 1);
    assert!(a.has_slot(9));
    a.release(9);
    assert_eq!(a.current(9), 0);
    assert!(!a.has_slot(9));
    // the slot is free again afterwards
    assert!(a.try_admit(9, 3));
    assert_eq!(a.current(9), 1);
}

#[test]
fn identities_are_counted_independently() {
    let mut a = AdmissionController::new();
    assert!(a.try_admit(1, 1));
    assert!(!a.try_admit(1, 1));
    assert!(a.try_admit(2, 1));
    assert_eq!(a.current(1), 1);
    assert_eq!(a.current(2), 1);
    a.release(1);
    assert_eq!(a.current(1), 0);
    assert_eq!(a.current(2), 1);
}

#[test]
fn origin_must_match_exactly() {
    let allowed = "http://localhost:5173".to_string();
    assert!(check_origin(Some(&allowed.clone()), &allowed));
    assert!(!check_origin(Some(&"http://evil.test".to_string()), &allowed));
    assert!(!check_origin(Some(&"http://localhost:5174".to_string()), &allowed));
    assert!(!check_origin(None, &allowed));
}

#[test]
fn client_ip_priority_order() {
    let cf = "203.0.113.9".to_string();
    let xff = "198.51.100.2, 203.0.113.9".to_string();
    let direct = "192.0.2.1".to_string();
    assert_eq!(client_ip(Some(&cf), Some(&xff), &direct), "203.0.113.9");
    assert_eq!(client_ip(None, Some(&xff), &direct), "198.51.100.2");
    assert_eq!(client_ip(None, None, &direct), "192.0.2.1");
}

#[test]
fn client_ip_trims_forwarded_entry() {
    let direct = "192.0.2.1".to_string();
    assert_eq!(client_ip(None, Some(&"  198.51.100.2\t".to_string()), &direct), "198.51.100.2");
    assert_eq!(client_ip(None, Some(&" 1.2.3.4 ,5.6.7.8".to_string()), &direct), "1.2.3.4");
    assert_eq!(client_ip(None, Some(&"".to_string()), &direct), "");
    assert_eq!(client_ip(None, Some(&",8.8.8.8".to_string()), &direct), "");
}

#[test]
fn identity_is_keyed_digest_prefix() {
    // SHA-256("abc") begins ba7816bf8f01cfea...
    assert_eq!(derive_identity("a", "bc"), 0xba7816bf8f01cfea);
    // SHA-256 of the empty string begins e3b0c44298fc1c14...
    assert_eq!(derive_identity("", ""), 0xe3b0c44298fc1c14);
}

#[test]
fn identity_is_deterministic_and_keyed() {
    let a = derive_identity("salt", "10.0.0.1");
    let b = derive_identity("salt", "10.0.0.1");
    assert_eq!(a, b);
    assert_ne!(derive_identity("salt", "10.0.0.2"), a);
    assert_ne!(derive_identity("other", "10.0.0.1"), a);
}
