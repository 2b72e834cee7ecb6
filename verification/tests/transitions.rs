use pallet_kitties::{AccountId, Error, Event, Kitty, Pallet};

fn account(n: u8) -> AccountId {
    AccountId([n; 32])
}

#[test]
fn it_works_for_defaulet_value() {
    let mut kitties = Pallet::new();
    assert_eq!(
        kitties.create_with_genome(account(1), [0u8; 16]),
        Ok(Event::KittyCreate(account(1), 1))
    );
    assert_eq!(kitties.transfer(account(1), account(1), 2), Err(Error::NotOwner));
    assert_eq!(kitties.store.get_count(), 1);
    assert_eq!(kitties.store.get_owner(1), Some(account(1)));
    assert_eq!(kitties.store.get_owner(2), None);
    assert_eq!(kitties.store.get_entity(2), None);
}

#[test]
fn first_kitty_gets_number_one() {
    let mut kitties = Pallet::new();
    assert_eq!(kitties.store.get_count(), 0);
    let event = kitties.create_with_genome(account(9), [5u8; 16]);
    assert_eq!(event, Ok(Event::KittyCreate(account(9), 1)));
    assert_eq!(kitties.store.get_count(), 1);
    assert_eq!(kitties.store.get_entity(0), None);
}

#[test]
fn numbers_follow_one_another_without_gaps() {
    let mut kitties = Pallet::new();
    for expected in 1u32..=20 {
        let who = account((expected % 3) as u8);
        let event = if expected > 2 && expected % 2 == 0 {
            kitties.breed_with_selector(who, expected - 1, expected - 2, [0x0f; 16])
        } else {
            kitties.create_with_genome(who, [expected as u8; 16])
        };
        assert_eq!(event, Ok(Event::KittyCreate(who, expected)));
        assert_eq!(kitties.store.get_count(), expected);
        assert!(kitties.store.get_entity(expected).is_some());
        assert_eq!(kitties.store.get_entity(expected + 1), None);
    }
}

#[test]
fn refused_calls_use_up_no_number() {
    let mut kitties = Pallet::new();
    kitties.create_with_genome(account(1), [1u8; 16]).unwrap();
    assert_eq!(
        kitties.breed_with_selector(account(1), 1, 1, [0u8; 16]),
        Err(Error::SameParentIndex)
    );
    assert_eq!(kitties.transfer(account(2), account(3), 1), Err(Error::NotOwner));
    assert_eq!(
        kitties.create_with_genome(account(2), [2u8; 16]),
        Ok(Event::KittyCreate(account(2), 2))
    );
}

#[test]
fn created_kitty_is_stored_for_its_caller() {
    let mut kitties = Pallet::new();
    let dna = [3, 1, 4, 1, 5, 9, 2, 6, 5, 3, 5, 8, 9, 7, 9, 3];
    assert_eq!(
        kitties.create_with_genome(account(4), dna),
        Ok(Event::KittyCreate(account(4), 1))
    );
    assert_eq!(kitties.store.get_owner(1), Some(account(4)));
    assert_eq!(kitties.store.get_entity(1), Some(Kitty(dna)));
    assert_eq!(kitties.store.get_entity(1).unwrap().dna(), dna);
}

#[test]
fn bred_kitty_is_stored_for_its_caller() {
    let mut kitties = Pallet::new();
    kitties.create_with_genome(account(1), [0xaa; 16]).unwrap();
    kitties.create_with_genome(account(2), [0x55; 16]).unwrap();
    let event = kitties.breed_with_selector(account(3), 1, 2, [0xf0; 16]);
    assert_eq!(event, Ok(Event::KittyCreate(account(3), 3)));
    assert_eq!(kitties.store.get_owner(3), Some(account(3)));
    assert_eq!(kitties.store.get_entity(3), Some(Kitty([0xa5; 16])));
    assert_eq!(kitties.store.get_count(), 3);
    assert_eq!(kitties.store.get_owner(1), Some(account(1)));
    assert_eq!(kitties.store.get_owner(2), Some(account(2)));
    assert_eq!(kitties.store.get_entity(1), Some(Kitty([0xaa; 16])));
    assert_eq!(kitties.store.get_entity(2), Some(Kitty([0x55; 16])));
}

#[test]
fn breeding_needs_no_ownership_of_the_parents() {
    let mut kitties = Pallet::new();
    kitties.create_with_genome(account(1), [1u8; 16]).unwrap();
    kitties.create_with_genome(account(1), [2u8; 16]).unwrap();
    assert_eq!(
        kitties.breed_with_selector(account(7), 2, 1, [0xff; 16]),
        Ok(Event::KittyCreate(account(7), 3))
    );
    assert_eq!(kitties.store.get_entity(3), Some(Kitty([2u8; 16])));
}

#[test]
fn transfer_changes_the_owner_only() {
    let mut kitties = Pallet::new();
    let dna = [0xde, 0xad, 0xbe, 0xef, 0, 1, 2, 3, 4, 5, 6, 7, 8, 9, 10, 11];
    kitties.create_with_genome(account(1), dna).unwrap();
    kitties.create_with_genome(account(1), [8u8; 16]).unwrap();
    assert_eq!(
        kitties.transfer(account(1), account(2), 1),
        Ok(Event::KittyTransfer(account(1), account(2), 1))
    );
    assert_eq!(kitties.store.get_owner(1), Some(account(2)));
    assert_eq!(kitties.store.get_entity(1), Some(Kitty(dna)));
    assert_eq!(kitties.store.get_owner(2), Some(account(1)));
    assert_eq!(kitties.store.get_entity(2), Some(Kitty([8u8; 16])));
    assert_eq!(kitties.store.get_count(), 2);
}

#[test]
fn transfer_to_oneself_goes_through() {
    let mut kitties = Pallet::new();
    kitties.create_with_genome(account(1), [0u8; 16]).unwrap();
    assert_eq!(
        kitties.transfer(account(1), account(1), 1),
        Ok(Event::KittyTransfer(account(1), account(1), 1))
    );
    assert_eq!(kitties.store.get_owner(1), Some(account(1)));
}

#[test]
fn former_owner_cannot_transfer_again() {
    let (a, b, c) = (account(10), account(11), account(12));
    let mut kitties = Pallet::new();
    assert_eq!(kitties.create_with_genome(a, [1u8; 16]), Ok(Event::KittyCreate(a, 1)));
    assert_eq!(kitties.store.get_owner(1), Some(a));
    assert_eq!(kitties.transfer(a, b, 1), Ok(Event::KittyTransfer(a, b, 1)));
    assert_eq!(kitties.store.get_owner(1), Some(b));
    assert_eq!(kitties.transfer(a, c, 1), Err(Error::NotOwner));
    assert_eq!(kitties.store.get_owner(1), Some(b));
    assert_eq!(kitties.transfer(b, c, 1), Ok(Event::KittyTransfer(b, c, 1)));
    assert_eq!(kitties.store.get_owner(1), Some(c));
}

#[test]
fn owners_differing_in_one_byte_are_different_accounts() {
    let mut other = [1u8; 32];
    other[31] = 2;
    let mut kitties = Pallet::new();
    kitties.create_with_genome(account(1), [0u8; 16]).unwrap();
    assert_eq!(kitties.transfer(AccountId(other), account(3), 1), Err(Error::NotOwner));
    assert!(!account(1).same(&AccountId(other)));
    assert!(account(1).same(&account(1)));
}

#[test]
fn transfer_of_an_unknown_kitty_is_not_owner() {
    let mut kitties = Pallet::new();
    assert_eq!(kitties.transfer(account(1), account(2), 1), Err(Error::NotOwner));
    assert_eq!(kitties.transfer(account(1), account(2), 0), Err(Error::NotOwner));
    assert_eq!(kitties.store.get_owner(1), None);
    assert_eq!(kitties.store.get_count(), 0);
}

#[test]
fn breeding_a_kitty_with_itself_is_refused() {
    let mut kitties = Pallet::new();
    assert_eq!(
        kitties.breed_with_selector(account(1), 1, 1, [0u8; 16]),
        Err(Error::SameParentIndex)
    );
    kitties.create_with_genome(account(1), [1u8; 16]).unwrap();
    assert_eq!(
        kitties.breed_with_selector(account(1), 1, 1, [0u8; 16]),
        Err(Error::SameParentIndex)
    );
    assert_eq!(kitties.store.get_count(), 1);
    assert_eq!(kitties.store.get_entity(2), None);
}

#[test]
fn breeding_with_an_unknown_kitty_is_refused() {
    let mut kitties = Pallet::new();
    kitties.create_with_genome(account(1), [1u8; 16]).unwrap();
    assert_eq!(
        kitties.breed_with_selector(account(1), 1, 999, [0u8; 16]),
        Err(Error::InvalidKittyIndex)
    );
    assert_eq!(
        kitties.breed_with_selector(account(1), 999, 1, [0u8; 16]),
        Err(Error::InvalidKittyIndex)
    );
    assert_eq!(kitties.store.get_count(), 1);
    assert_eq!(kitties.store.get_entity(2), None);
    assert_eq!(kitties.store.get_owner(2), None);
}

#[test]
fn create_at_the_largest_count_overflows() {
    let mut kitties = Pallet::new();
    kitties.store.set_count(u32::MAX - 1);
    assert_eq!(
        kitties.create_with_genome(account(1), [1u8; 16]),
        Ok(Event::KittyCreate(account(1), u32::MAX))
    );
    assert_eq!(kitties.store.get_count(), u32::MAX);
    assert_eq!(
        kitties.create_with_genome(account(1), [2u8; 16]),
        Err(Error::KittiesCountOverflow)
    );
    assert_eq!(kitties.store.get_count(), u32::MAX);
    assert_eq!(kitties.store.get_entity(u32::MAX), Some(Kitty([1u8; 16])));
    assert_eq!(kitties.store.get_entity(0), None);
}

#[test]
fn breed_at_the_largest_count_overflows() {
    let mut kitties = Pallet::new();
    kitties.create_with_genome(account(1), [1u8; 16]).unwrap();
    kitties.create_with_genome(account(1), [2u8; 16]).unwrap();
    kitties.store.set_count(u32::MAX);
    assert_eq!(
        kitties.breed_with_selector(account(1), 1, 2, [0u8; 16]),
        Err(Error::KittiesCountOverflow)
    );
    assert_eq!(
        kitties.breed_with_selector(account(1), 1, 3, [0u8; 16]),
        Err(Error::InvalidKittyIndex)
    );
    assert_eq!(
        kitties.breed_with_selector(account(1), 2, 2, [0u8; 16]),
        Err(Error::SameParentIndex)
    );
    assert_eq!(kitties.store.get_count(), u32::MAX);
}
