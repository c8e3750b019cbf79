use aleo::c_error::{
    last_error_length, last_error_message, take_last_error, update_last_error, ErrorSlot,
};

#[test]
fn empty_slot_reports_nothing() {
    let mut slot = ErrorSlot::new();
    assert!(!slot.has_error());
    assert_eq!(last_error_length(&slot), 0);
    let mut buf = vec![7u8; 8];
    assert_eq!(last_error_message(&mut slot, &mut buf), 0);
    assert_eq!(buf, vec![7u8; 8]);
    assert!(take_last_error(&mut slot).is_none());
}

#[test]
fn last_write_wins() {
    let mut slot = ErrorSlot::new();
    update_last_error(&mut slot, String::from("first"));
    update_last_error(&mut slot, String::from("second one"));
    assert_eq!(last_error_length(&slot), 11);
    assert_eq!(take_last_error(&mut slot), Some(String::from("second one")));
    assert!(take_last_error(&mut slot).is_none());
}

#[test]
fn length_does_not_consume() {
    let mut slot = ErrorSlot::new();
    update_last_error(&mut slot, String::from("bad key"));
    assert_eq!(last_error_length(&slot), 8);
    assert_eq!(last_error_length(&slot), 8);
    assert!(slot.has_error());
}

#[test]
fn read_consumes_once() {
    let mut slot = ErrorSlot::new();
    update_last_error(&mut slot, String::from("bad key"));
    let n = last_error_length(&slot);
    let mut buf = vec![0xffu8; n as usize];
    assert_eq!(last_error_message(&mut slot, &mut buf), 7);
    assert_eq!(&buf[..7], b"bad key");
    assert_eq!(buf[7], 0);
    let mut again = vec![0xffu8; n as usize];
    assert_eq!(last_error_message(&mut slot, &mut again), 0);
    assert_eq!(last_error_length(&slot), 0);
}

#[test]
fn read_into_small_buffer_fails_and_consumes() {
    let mut slot = ErrorSlot::new();
    update_last_error(&mut slot, String::from("bad key"));
    let mut buf = vec![1u8; 7];
    assert_eq!(last_error_message(&mut slot, &mut buf), -1);
    assert_eq!(buf, vec![1u8; 7]);
    assert!(!slot.has_error());
}

#[test]
fn multibyte_message_counts_bytes() {
    let mut slot = ErrorSlot::new();
    update_last_error(&mut slot, String::from("é"));
    assert_eq!(last_error_length(&slot), 3);
    let mut buf = vec![9u8; 5];
    assert_eq!(last_error_message(&mut slot, &mut buf), 2);
    assert_eq!(buf, vec![0xc3, 0xa9, 0, 9, 9]);
}
