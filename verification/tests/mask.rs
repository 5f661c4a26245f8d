use llguidance::toktrie::SimpleVob;
use llguidance_wasm::mask::{allows, mask_bytes};

#[test]
fn bytes_follow_the_bits() {
    let mask = SimpleVob::from_slice(&[false, true, true, false, true]);
    assert_eq!(mask_bytes(&mask, 5), vec![0u8, 1, 1, 0, 1]);
}

#[test]
fn bytes_beyond_the_mask_are_zero() {
    let mask = SimpleVob::from_slice(&[true, true]);
    assert_eq!(mask_bytes(&mask, 4), vec![1u8, 1, 0, 0]);
    let wide = SimpleVob::from_slice(&[true; 40]);
    assert_eq!(mask_bytes(&wide, 70).iter().map(|b| *b as usize).sum::<usize>(), 40);
}

#[test]
fn bytes_stop_at_the_asked_length() {
    let mask = SimpleVob::from_slice(&[true, false, true, true]);
    assert_eq!(mask_bytes(&mask, 2), vec![1u8, 0]);
    assert_eq!(mask_bytes(&mask, 0), Vec::<u8>::new());
}

#[test]
fn empty_mask_admits_nothing() {
    let mask = SimpleVob::from_slice(&[]);
    assert_eq!(mask_bytes(&mask, 3), vec![0u8, 0, 0]);
    assert!(!allows(&mask, 0));
}

#[test]
fn allows_reads_the_bit_of_the_token() {
    let mask = SimpleVob::from_slice(&[false, true, false]);
    assert!(!allows(&mask, 0));
    assert!(allows(&mask, 1));
    assert!(!allows(&mask, 2));
}

#[test]
fn allows_refuses_a_token_beyond_the_mask() {
    let mask = SimpleVob::from_slice(&[true, true, true]);
    assert!(!allows(&mask, 3));
    assert!(!allows(&mask, 31));
    assert!(!allows(&mask, 32));
    assert!(!allows(&mask, 1_000_000));
    assert!(!allows(&mask, u32::MAX));
}
