use kitties::combine;
use kitties::Error;
use kitties::Event;
use kitties::Kitty;
use kitties::Pallet;

const SEED: [u8; 32] = [7u8; 32];

#[test]
fn it_works_for_create() {
    let mut pallet = Pallet::new();
    let kitty_id = 0;
    let account_id = 1;

    assert_eq!(pallet.next_kitty_id(), kitty_id);
    assert_eq!(pallet.create(account_id), Ok(()));

    assert_eq!(pallet.next_kitty_id(), kitty_id + 1);
    assert_eq!(pallet.kitties(kitty_id).is_some(), true);
    assert_eq!(pallet.kitty_owner(kitty_id), Some(account_id));
    assert_eq!(pallet.kitty_parents(kitty_id), None);

    pallet.set_next_kitty_id(u32::MAX);
    assert_eq!(pallet.create(account_id), Err(Error::InValidKittyId));
    assert_eq!(pallet.next_kitty_id(), u32::MAX);
}

#[test]
fn it_works_for_breed() {
    let mut pallet = Pallet::new();
    let kitty_id_1 = 0;
    let kitty_id_2 = 1;
    let account_id = 1;

    assert_eq!(pallet.create(account_id), Ok(()));
    assert_eq!(pallet.create(account_id), Ok(()));

    assert_eq!(pallet.next_kitty_id(), kitty_id_2 + 1);
    assert_eq!(pallet.kitties(kitty_id_1).is_some(), true);
    assert_eq!(pallet.kitties(kitty_id_2).is_some(), true);
    assert_eq!(pallet.kitty_owner(kitty_id_1), Some(account_id));
    assert_eq!(pallet.kitty_owner(kitty_id_2), Some(account_id));
    assert_eq!(pallet.kitty_parents(kitty_id_1), None);
    assert_eq!(pallet.kitty_parents(kitty_id_2), None);

    assert_eq!(pallet.breed(account_id, kitty_id_1, kitty_id_2, &SEED, 0), Ok(()));

    let kitty_id = 2;
    assert_eq!(pallet.next_kitty_id(), kitty_id + 1);
    assert_eq!(pallet.kitties(kitty_id).is_some(), true);
    assert_eq!(pallet.kitty_owner(kitty_id), Some(account_id));
    assert_eq!(pallet.kitty_parents(kitty_id), Some((kitty_id_1, kitty_id_2)));

    pallet.set_next_kitty_id(u32::MAX);
    assert_eq!(
        pallet.breed(account_id, kitty_id_1, kitty_id_2, &SEED, 1),
        Err(Error::InValidKittyId)
    );
    assert_eq!(pallet.next_kitty_id(), u32::MAX);
}

#[test]
fn it_works_for_transfer() {
    let mut pallet = Pallet::new();
    let kitty_id = 0;
    let account_id_1 = 1;
    let account_id_2 = 2;

    assert_eq!(pallet.create(account_id_1), Ok(()));

    assert_eq!(pallet.next_kitty_id(), kitty_id + 1);
    assert_eq!(pallet.kitties(kitty_id).is_some(), true);
    assert_eq!(pallet.kitty_owner(kitty_id), Some(account_id_1));
    assert_eq!(pallet.kitty_parents(kitty_id), None);

    assert_eq!(pallet.transfer(account_id_1, account_id_2, kitty_id), Ok(()));

    assert_eq!(pallet.kitty_owner(kitty_id), Some(account_id_2));

    assert_eq!(
        pallet.transfer(account_id_1, account_id_2, kitty_id),
        Err(Error::NotOwner)
    );
    assert_eq!(pallet.kitty_owner(kitty_id), Some(account_id_2));
}

#[test]
fn mint_ids_strictly_increasing() {
    let mut pallet = Pallet::new();
    for expected in 0u32..5 {
        assert_eq!(pallet.next_kitty_id(), expected);
        assert_eq!(pallet.create(9), Ok(()));
        assert_eq!(pallet.next_kitty_id(), expected + 1);
        assert_eq!(pallet.kitty_owner(expected), Some(9));
    }
}

#[test]
fn create_exhaustion_leaves_state_unchanged() {
    let mut pallet = Pallet::new();
    assert_eq!(pallet.create(1), Ok(()));
    pallet.set_next_kitty_id(u32::MAX);
    assert_eq!(pallet.create(2), Err(Error::InValidKittyId));
    assert_eq!(pallet.next_kitty_id(), u32::MAX);
    assert_eq!(pallet.kitty_owner(0), Some(1));
    assert_eq!(pallet.kitties(1).is_none(), true);
    assert_eq!(pallet.events().len(), 1);
}

#[test]
fn breed_exhaustion_leaves_state_unchanged() {
    let mut pallet = Pallet::new();
    assert_eq!(pallet.create(1), Ok(()));
    assert_eq!(pallet.create(1), Ok(()));
    pallet.set_next_kitty_id(u32::MAX);
    assert_eq!(pallet.breed(1, 0, 1, &SEED, 0), Err(Error::InValidKittyId));
    assert_eq!(pallet.next_kitty_id(), u32::MAX);
    assert_eq!(pallet.kitty_parents(0), None);
    assert_eq!(pallet.kitty_parents(1), None);
    assert_eq!(pallet.events().len(), 2);
}

#[test]
fn breed_same_kitty_rejected_before_existence_and_ownership() {
    let mut pallet = Pallet::new();
    // Kitty 5 does not exist, yet the equal-parents check comes first.
    assert_eq!(pallet.breed(1, 5, 5, &SEED, 0), Err(Error::SameKittyId));
    assert_eq!(pallet.create(1), Ok(()));
    // Kitty 0 exists but is bred with itself; caller 2 does not even own it.
    assert_eq!(pallet.breed(2, 0, 0, &SEED, 0), Err(Error::SameKittyId));
}

#[test]
fn breed_missing_parent_rejected() {
    let mut pallet = Pallet::new();
    assert_eq!(pallet.create(1), Ok(()));
    assert_eq!(pallet.breed(1, 0, 7, &SEED, 0), Err(Error::InValidKittyId));
    assert_eq!(pallet.breed(1, 7, 0, &SEED, 0), Err(Error::InValidKittyId));
    assert_eq!(pallet.next_kitty_id(), 1);
}

#[test]
fn breed_one_parent_owned_rejected() {
    let mut pallet = Pallet::new();
    assert_eq!(pallet.create(1), Ok(()));
    assert_eq!(pallet.create(2), Ok(()));
    // Caller 1 owns kitty 0 but not kitty 1: owning one parent is not enough.
    assert_eq!(pallet.breed(1, 0, 1, &SEED, 0), Err(Error::NotOwner));
    assert_eq!(pallet.breed(2, 0, 1, &SEED, 0), Err(Error::NotOwner));
    assert_eq!(pallet.breed(3, 0, 1, &SEED, 0), Err(Error::NotOwner));
    assert_eq!(pallet.next_kitty_id(), 2);
}

#[test]
fn transfer_missing_kitty_rejected() {
    let mut pallet = Pallet::new();
    assert_eq!(pallet.transfer(1, 2, 0), Err(Error::InValidKittyId));
}

#[test]
fn combine_all_ones_selector_copies_first_parent() {
    let a = Kitty([0xabu8; 16]);
    let b = Kitty([0x5cu8; 16]);
    let child = combine(&a, &b, &[0xffu8; 16]);
    assert_eq!(child.0, a.0);
}

#[test]
fn combine_all_zero_selector_copies_second_parent() {
    let a = Kitty([0xabu8; 16]);
    let b = Kitty([0x5cu8; 16]);
    let child = combine(&a, &b, &[0x00u8; 16]);
    assert_eq!(child.0, b.0);
}

#[test]
fn combine_mixed_selector_exact() {
    let a = Kitty([0b1010_1010u8; 16]);
    let b = Kitty([0b0101_0101u8; 16]);
    let selector = [0b1111_0000u8; 16];
    let child = combine(&a, &b, &selector);
    // High nibble from a, low nibble from b: (s & a) | (!s & b).
    assert_eq!(child.0, [0b1010_0101u8; 16]);

    let mut s2 = [0u8; 16];
    s2[3] = 0xff;
    let child2 = combine(&a, &b, &s2);
    for i in 0..16 {
        if i == 3 {
            assert_eq!(child2.0[i], a.0[i]);
        } else {
            assert_eq!(child2.0[i], b.0[i]);
        }
    }
}

#[test]
fn lineage_absent_for_minted_present_for_bred() {
    let mut pallet = Pallet::new();
    assert_eq!(pallet.create(1), Ok(()));
    assert_eq!(pallet.create(1), Ok(()));
    assert_eq!(pallet.breed(1, 1, 0, &SEED, 0), Ok(()));
    assert_eq!(pallet.kitty_parents(0), None);
    assert_eq!(pallet.kitty_parents(1), None);
    // The recorded pair is exactly the pair supplied, in order.
    assert_eq!(pallet.kitty_parents(2), Some((1, 0)));
    // Transferring the bred kitty does not touch its lineage.
    assert_eq!(pallet.transfer(1, 4, 2), Ok(()));
    assert_eq!(pallet.kitty_parents(2), Some((1, 0)));
}

#[test]
fn events_recorded_in_order() {
    let mut pallet = Pallet::new();
    assert_eq!(pallet.create(1), Ok(()));
    assert_eq!(pallet.create(1), Ok(()));
    assert_eq!(pallet.breed(1, 0, 1, &SEED, 2), Ok(()));
    assert_eq!(pallet.transfer(1, 3, 2), Ok(()));
    let events = pallet.events();
    assert_eq!(events.len(), 4);
    let zero = Kitty([0u8; 16]);
    assert_eq!(
        events[0],
        Event::KittyCreated { who: 1, kitty_id: 0, kitty: zero }
    );
    assert_eq!(
        events[1],
        Event::KittyCreated { who: 1, kitty_id: 1, kitty: zero }
    );
    // Both parents are all-zero, so the bred payload is all-zero whatever
    // the selector.
    assert_eq!(events[2], Event::KittyBred { who: 1, kitty_id: 2, kitty: zero });
    assert_eq!(
        events[3],
        Event::KittyTransfered { who: 1, recipient: 3, kitty_id: 2 }
    );
    // A failing operation records nothing.
    assert_eq!(pallet.transfer(1, 3, 2), Err(Error::NotOwner));
    assert_eq!(pallet.events().len(), 4);
}

#[test]
fn selector_depends_on_sequence_index() {
    // The inputs differ only in the call-sequence index, which sits at the
    // very end of the hashed bytes: a hash that merely truncated its input
    // would return equal selectors here.
    let s0 = Pallet::random_value(1, &SEED, 0);
    let s1 = Pallet::random_value(1, &SEED, 1);
    assert_ne!(s0, s1);
    // The derivation is deterministic: the same inputs give the same value.
    assert_eq!(s0, Pallet::random_value(1, &SEED, 0));
}

#[test]
fn selector_depends_on_seed_and_caller() {
    let base = Pallet::random_value(1, &SEED, 0);
    assert_ne!(base, Pallet::random_value(2, &SEED, 0));
    assert_ne!(base, Pallet::random_value(1, &[8u8; 32], 0));
}

#[test]
fn end_to_end_lifecycle() {
    let mut pallet = Pallet::new();
    let a = 1;
    let c = 3;

    assert_eq!(pallet.create(a), Ok(()));
    assert_eq!(pallet.kitty_owner(0), Some(a));
    assert_eq!(pallet.kitty_parents(0), None);

    assert_eq!(pallet.create(a), Ok(()));
    assert_eq!(pallet.kitty_owner(1), Some(a));

    assert_eq!(pallet.breed(a, 0, 1, &SEED, 0), Ok(()));
    assert_eq!(pallet.kitty_owner(2), Some(a));
    assert_eq!(pallet.kitty_parents(2), Some((0, 1)));
    // Both parents carry all-zero payloads, so whatever selector the call
    // derived, the crossover yields an all-zero child.
    assert_eq!(pallet.kitties(2).unwrap().0, [0u8; 16]);

    assert_eq!(pallet.transfer(a, c, 2), Ok(()));
    assert_eq!(pallet.kitty_owner(2), Some(c));
    assert_eq!(pallet.transfer(a, c, 2), Err(Error::NotOwner));
}
