use pallet_kitties::{AccountId, Kitty, Registry};

#[test]
fn new_registry_is_empty() {
    let registry = Registry::new();
    assert_eq!(registry.get_count(), 0);
    assert_eq!(registry.get_entity(1), None);
    assert_eq!(registry.get_owner(1), None);
    assert_eq!(registry.get_entity(0), None);
    assert_eq!(registry.get_entity(u32::MAX), None);
}

#[test]
fn writes_are_unconditional() {
    let mut registry = Registry::new();
    registry.put_entity(40, Kitty([4u8; 16]));
    assert_eq!(registry.get_entity(40), Some(Kitty([4u8; 16])));
    assert_eq!(registry.get_owner(40), None);
    assert_eq!(registry.get_count(), 0);
    registry.put_owner(41, AccountId([6u8; 32]));
    assert_eq!(registry.get_owner(41), Some(AccountId([6u8; 32])));
    assert_eq!(registry.get_entity(41), None);
    registry.set_count(7);
    assert_eq!(registry.get_count(), 7);
    registry.set_count(0);
    assert_eq!(registry.get_count(), 0);
    assert_eq!(registry.get_entity(40), Some(Kitty([4u8; 16])));
}

#[test]
fn later_writes_replace_earlier_ones() {
    let mut registry = Registry::new();
    registry.put_entity(1, Kitty([1u8; 16]));
    registry.put_entity(1, Kitty([2u8; 16]));
    registry.put_owner(1, AccountId([1u8; 32]));
    registry.put_owner(1, AccountId([2u8; 32]));
    assert_eq!(registry.get_entity(1), Some(Kitty([2u8; 16])));
    assert_eq!(registry.get_owner(1), Some(AccountId([2u8; 32])));
}
