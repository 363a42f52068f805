//! Slot reuse in the handle registry and the one-shot error channel.

use kaspa_txgen::errors::{set_last_error, take_last_error, EngineError, ErrorChannel};
use kaspa_txgen::registry::Registry;

#[test]
fn registry_hands_out_sequential_handles() {
    let mut regs: Registry<u32> = Registry::new(1);
    assert_eq!(regs.acquire(10), 1);
    assert_eq!(regs.acquire(20), 2);
    assert_eq!(regs.acquire(30), 3);
    assert_eq!(regs.get(1).copied(), Some(10));
    assert_eq!(regs.get(2).copied(), Some(20));
    assert_eq!(regs.get(3).copied(), Some(30));
    assert_eq!(regs.get(0), None);
    assert_eq!(regs.get(4), None);
    assert_eq!(regs.get(-1), None);
}

#[test]
fn freed_slot_is_reused_cleanly() {
    let mut regs: Registry<Vec<u8>> = Registry::new(1);
    let h1 = regs.acquire(vec![1, 1, 1]);
    let h2 = regs.acquire(vec![2, 2, 2]);
    assert!(regs.release(h1));
    // The freed slot is reused before the registry grows, and nothing of
    // the prior occupant is observable.
    let h3 = regs.acquire(vec![9]);
    assert_eq!(h3, h1);
    assert_eq!(regs.get(h3), Some(&vec![9u8]));
    assert_eq!(regs.get(h2), Some(&vec![2u8, 2, 2]));
}

#[test]
fn release_reports_whether_anything_was_removed() {
    let mut regs: Registry<u8> = Registry::new(5);
    let h = regs.acquire(1);
    assert_eq!(h, 5);
    assert!(regs.release(h));
    assert!(!regs.release(h));
    assert!(!regs.release(99));
}

#[test]
fn take_returns_the_resource() {
    let mut regs: Registry<String> = Registry::new(1);
    let h = regs.acquire("abc".to_string());
    assert_eq!(regs.take(h), Some("abc".to_string()));
    assert_eq!(regs.take(h), None);
}

#[test]
fn error_channel_is_one_shot() {
    let mut ch = ErrorChannel::new();
    assert_eq!(take_last_error(&mut ch), None);
    set_last_error(&mut ch, "first".to_string());
    set_last_error(&mut ch, "second".to_string());
    assert_eq!(take_last_error(&mut ch), Some("second".to_string()));
    assert_eq!(take_last_error(&mut ch), None);
}

#[test]
fn error_messages_are_nonempty() {
    let all = [
        EngineError::InvalidArgument,
        EngineError::DecodeHex,
        EngineError::DecodeLength,
        EngineError::DecodeNumber,
        EngineError::AddressParse,
        EngineError::AddressNetwork,
        EngineError::UnknownHandle,
        EngineError::SigningKey,
        EngineError::SigningHashType,
        EngineError::SigningAlgorithm,
    ];
    for e in all {
        assert!(!e.message().is_empty());
    }
}
