use aleo::account::{account_address, account_private_key, from_seed};
use aleo::c_error::{last_error_length, last_error_message};
use aleo::handle::Handle;
use aleo::ledger::{PAYLOAD_SIZE, SEED_SIZE};
use aleo::record::new_input_record;
use aleo::session::Session;
use aleo::transaction::{
    finish_coinbase, finish_transfer, new_coinbase_transaction, new_transfer_transaction,
    TransferFailure,
};

fn error_text(s: &mut Session) -> String {
    let mut buf = vec![0u8; 256];
    let n = last_error_message(&mut s.errors, &mut buf);
    String::from_utf8(buf[..n as usize].to_vec()).unwrap()
}

/// A session holding one account and one record it owns: (record, key, address).
fn setup(s: &mut Session) -> (Handle, String, String) {
    let a = from_seed(s, &[2u8; 32]).unwrap();
    let addr = account_address(s, a).unwrap();
    let key = account_private_key(s, a).unwrap();
    let r = new_input_record(s, &addr, 3, &[0u8; PAYLOAD_SIZE], &[1u8; SEED_SIZE]).unwrap();
    (r, key, addr)
}

#[test]
fn coinbase_with_short_randomness_is_refused() {
    let mut s = Session::new();
    let a = from_seed(&mut s, &[0u8; 32]).unwrap();
    let addr = account_address(&s, a).unwrap();
    assert!(new_coinbase_transaction(&mut s, &addr, 1, &[0u8; 16]).is_none());
    assert_eq!(error_text(&mut s), "randomness must be 32 bytes");
}

#[test]
fn transfer_from_dead_record_is_refused() {
    let mut s = Session::new();
    let h = Handle { index: 0, generation: 0 };
    let r = new_transfer_transaction(&mut s, h, "00", "00", "key", 1, 0, "addr");
    assert!(r.is_none());
    assert_eq!(error_text(&mut s), "record handle is not live");
}

#[test]
fn transfer_with_malformed_key_is_refused() {
    let mut s = Session::new();
    let (r, _, addr) = setup(&mut s);
    let t = new_transfer_transaction(&mut s, r, "00", "00", "not a key", 1, 0, &addr);
    assert!(t.is_none());
    assert!(last_error_length(&s.errors) > 0);
}

#[test]
fn transfer_with_malformed_recipient_is_refused() {
    let mut s = Session::new();
    let (r, key, _) = setup(&mut s);
    let t = new_transfer_transaction(&mut s, r, "00", "00", &key, 1, 0, "aleo1nope");
    assert!(t.is_none());
    assert!(last_error_length(&s.errors) > 0);
}

#[test]
fn transfer_with_odd_hex_proof_is_refused() {
    let mut s = Session::new();
    let (r, key, addr) = setup(&mut s);
    let t = new_transfer_transaction(&mut s, r, "abc", "00", &key, 1, 0, &addr);
    assert!(t.is_none());
    assert_eq!(error_text(&mut s), "Odd number of digits");
}

#[test]
fn transfer_with_non_hex_proof_is_refused() {
    let mut s = Session::new();
    let (r, key, addr) = setup(&mut s);
    let t = new_transfer_transaction(&mut s, r, "zz", "00", &key, 1, 0, &addr);
    assert!(t.is_none());
    assert_eq!(error_text(&mut s), "Invalid character 'z' at position 0");
}

#[test]
fn transfer_with_overlong_key_is_refused() {
    let mut s = Session::new();
    let (r, _, addr) = setup(&mut s);
    let key = "1".repeat(140);
    let t = new_transfer_transaction(&mut s, r, "00", "00", &key, 1, 0, &addr);
    assert!(t.is_none());
    assert_eq!(error_text(&mut s), "private key text is too long");
}

#[test]
fn valid_transfer_inputs_are_decoded() {
    let mut s = Session::new();
    let (r, key, addr) = setup(&mut s);
    let t = new_transfer_transaction(&mut s, r, "00ff", "0a0B", &key, 7, 1, &addr).unwrap();
    assert_eq!(t.proof_one, vec![0x00, 0xff]);
    assert_eq!(t.proof_two, vec![0x0a, 0x0b]);
    assert_eq!(t.private_key, key);
    assert_eq!(t.recipient, addr);
    assert_eq!((t.amount, t.fee), (7, 1));
    assert_eq!(t.record, s.records.get(r).unwrap().bytes);
    assert_eq!(last_error_length(&s.errors), 0);
}

#[test]
fn valid_coinbase_inputs_are_kept() {
    let mut s = Session::new();
    let a = from_seed(&mut s, &[0u8; 32]).unwrap();
    let addr = account_address(&s, a).unwrap();
    let c = new_coinbase_transaction(&mut s, &addr, 9, &[5u8; SEED_SIZE]).unwrap();
    assert_eq!(c.recipient, addr);
    assert_eq!(c.value, 9);
    assert_eq!(c.seed, [5u8; 32]);
}

#[test]
fn coinbase_outcome_becomes_hex_text() {
    let mut s = Session::new();
    assert_eq!(finish_coinbase(&mut s, Ok(vec![0xab, 0x01, 0x00])), Some(String::from("ab0100")));
    assert_eq!(last_error_length(&s.errors), 0);
}

#[test]
fn coinbase_failure_leaves_its_message() {
    let mut s = Session::new();
    assert_eq!(finish_coinbase(&mut s, Err(String::from("no coinbase"))), None);
    assert_eq!(error_text(&mut s), "no coinbase");
}

#[test]
fn transfer_outcome_becomes_hex_text() {
    let mut s = Session::new();
    assert_eq!(finish_transfer(&mut s, Ok(vec![0x10, 0xfe])), Some(String::from("10fe")));
}

#[test]
fn transfer_failures_leave_their_messages() {
    let mut s = Session::new();
    assert_eq!(finish_transfer(&mut s, Err(TransferFailure::Request)), None);
    assert_eq!(error_text(&mut s), "could not create transfer request");
    assert_eq!(finish_transfer(&mut s, Err(TransferFailure::Execute)), None);
    assert_eq!(error_text(&mut s), "could not execute transaction");
    assert_eq!(finish_transfer(&mut s, Err(TransferFailure::Finalize)), None);
    assert_eq!(error_text(&mut s), "could not finalize transaction");
    let proof = TransferFailure::Proof(String::from("bad proof"));
    assert_eq!(finish_transfer(&mut s, Err(proof)), None);
    assert_eq!(error_text(&mut s), "bad proof");
}
