use brigade::chain::{apply, Chain, Transform};

#[test]
fn identity_chain_of_zero_units_returns_entry() {
    let mut chain = Chain::new(0, Transform::Identity);
    assert_eq!(chain.units(), 0);
    assert_eq!(chain.relay_once(7), 7);
}

#[test]
fn identity_chain_relays_byte_unchanged() {
    let mut chain = Chain::new(5, Transform::Identity);
    assert_eq!(chain.relay_once(0x2A), 0x2A);
}

#[test]
fn increment_chain_of_zero_units_returns_entry() {
    let mut chain = Chain::new(0, Transform::IncrementByOne);
    assert_eq!(chain.relay_once(9), 9);
}

#[test]
fn increment_chain_adds_one_per_unit() {
    let mut chain = Chain::new(3, Transform::IncrementByOne);
    assert_eq!(chain.relay_once(0), 3);
}

#[test]
fn chain_accepts_a_new_payload_after_the_previous_one_exits() {
    let mut chain = Chain::new(4, Transform::IncrementByOne);
    assert_eq!(chain.relay_once(0), 4);
    assert_eq!(chain.relay_once(10), 14);
    assert_eq!(chain.relay_once(0), 4);
}

#[test]
fn apply_performs_one_step() {
    assert_eq!(apply(Transform::Identity, 17), 17);
    assert_eq!(apply(Transform::IncrementByOne, 17), 18);
}
