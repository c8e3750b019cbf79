use aleo::account::{
    account_address, account_free, account_private_key, account_view_key, from_seed, from_sk,
};
use aleo::c_error::{last_error_length, last_error_message};
use aleo::session::Session;

#[test]
fn seed_of_wrong_length_is_refused() {
    let mut s = Session::new();
    assert!(from_seed(&mut s, &[0u8; 31]).is_none());
    assert!(last_error_length(&s.errors) > 0);
    let mut buf = vec![0u8; 64];
    let n = last_error_message(&mut s.errors, &mut buf);
    assert_eq!(&buf[..n as usize], b"seed must be 32 bytes");
}

#[test]
fn malformed_private_key_is_refused() {
    let mut s = Session::new();
    assert!(from_sk(&mut s, "not a key").is_none());
    assert!(last_error_length(&s.errors) > 0);
}

#[test]
fn zero_seed_account_rederives_from_its_key() {
    let mut s = Session::new();
    let a = from_seed(&mut s, &[0u8; 32]).unwrap();
    let address = account_address(&s, a).unwrap();
    let key = account_private_key(&s, a).unwrap();
    let b = from_sk(&mut s, &key).unwrap();
    assert_eq!(account_address(&s, b).unwrap(), address);
    assert_eq!(account_view_key(&s, b).unwrap(), account_view_key(&s, a).unwrap());
    assert!(address.starts_with("aleo1"));
    assert_eq!(last_error_length(&s.errors), 0);
}

#[test]
fn private_key_round_trips() {
    let mut s = Session::new();
    let a = from_seed(&mut s, &[7u8; 32]).unwrap();
    let key = account_private_key(&s, a).unwrap();
    let b = from_sk(&mut s, &key).unwrap();
    assert_eq!(account_private_key(&s, b).unwrap(), key);
}

#[test]
fn seed_derivation_is_deterministic() {
    let mut s = Session::new();
    let a = from_seed(&mut s, &[3u8; 32]).unwrap();
    let b = from_seed(&mut s, &[3u8; 32]).unwrap();
    let c = from_seed(&mut s, &[4u8; 32]).unwrap();
    assert_eq!(account_private_key(&s, a), account_private_key(&s, b));
    assert_eq!(account_view_key(&s, a), account_view_key(&s, b));
    assert_eq!(account_address(&s, a), account_address(&s, b));
    assert_ne!(account_address(&s, a), account_address(&s, c));
}

#[test]
fn account_free_accepts_null_and_retires_handle() {
    let mut s = Session::new();
    assert!(!account_free(&mut s, None));
    let a = from_seed(&mut s, &[1u8; 32]).unwrap();
    assert!(!account_free(&mut s, None));
    assert!(account_private_key(&s, a).is_some());
    assert!(account_free(&mut s, Some(a)));
    assert!(account_private_key(&s, a).is_none());
    assert!(!account_free(&mut s, Some(a)));
}

#[test]
fn overlong_private_key_text_is_refused() {
    let mut s = Session::new();
    let text = "1".repeat(133);
    assert!(from_sk(&mut s, &text).is_none());
    let mut buf = vec![0u8; 64];
    let n = last_error_message(&mut s.errors, &mut buf);
    assert_eq!(&buf[..n as usize], b"private key text is too long");
}

#[test]
fn key_text_of_leading_ones_is_refused() {
    let mut s = Session::new();
    let text = "1".repeat(132);
    assert!(from_sk(&mut s, &text).is_none());
    assert!(last_error_length(&s.errors) > 0);
}
