//! The basic data of the registry: identifiers, accounts, the entity payload,
//! the error taxonomy and the notification events.

use vstd::prelude::*;

verus! {

/// The unique, monotonically allocated key naming a kitty.
pub type KittyID = u32;

/// The identity authorized to transfer or breed a kitty it owns. Identity
/// validity is the caller-authentication layer's concern, not this core's:
/// any value is accepted as an owner.
pub type AccountId = u64;

/// A kitty: a 16-byte genetic payload, immutable once created.
#[derive(Clone, Copy, Debug, PartialEq, Eq)]
pub struct Kitty(pub [u8; 16]);

impl View for Kitty {
    type V = Seq<u8>;

    open spec fn view(&self) -> Seq<u8> {
        self.0@
    }
}

/// The payload of a freshly created (non-bred) kitty: all zero bytes.
pub open spec fn zero_payload() -> Seq<u8> {
    Seq::new(16, |i: int| 0u8)
}

/// The typed failures of the transition operations.
///
/// `InValidKittyId` covers both a reference to an identifier with no entity
/// and exhaustion of the identifier allocator; `SameKittyId` rejects breeding
/// an entity with itself; `NotOwner` rejects a caller who lacks ownership.
#[derive(Clone, Copy, Debug, PartialEq, Eq)]
pub enum Error {
    InValidKittyId,
    SameKittyId,
    NotOwner,
}

/// The notifications recorded by the transition operations, appended to the
/// event log only when an operation commits.
#[derive(Clone, Copy, Debug, PartialEq, Eq)]
pub enum Event {
    KittyCreated { who: AccountId, kitty_id: KittyID, kitty: Kitty },
    KittyBred { who: AccountId, kitty_id: KittyID, kitty: Kitty },
    KittyTransfered { who: AccountId, recipient: AccountId, kitty_id: KittyID },
}

/// Holds when `e` announces the creation of kitty `kitty_id` with payload
/// `payload`, owned by `who`.
pub open spec fn is_created_event(e: Event, who: AccountId, kitty_id: KittyID, payload: Seq<u8>) -> bool {
    &&& e matches Event::KittyCreated { who: w, kitty_id: id, kitty: k }
    &&& w == who
    &&& id == kitty_id
    &&& k@ == payload
}

/// Holds when `e` announces the breeding of kitty `kitty_id` with payload
/// `payload`, owned by `who`.
pub open spec fn is_bred_event(e: Event, who: AccountId, kitty_id: KittyID, payload: Seq<u8>) -> bool {
    &&& e matches Event::KittyBred { who: w, kitty_id: id, kitty: k }
    &&& w == who
    &&& id == kitty_id
    &&& k@ == payload
}

/// Holds when `e` announces the transfer of kitty `kitty_id` from `who` to
/// `recipient`.
pub open spec fn is_transferred_event(e: Event, who: AccountId, recipient: AccountId, kitty_id: KittyID) -> bool {
    &&& e matches Event::KittyTransfered { who: w, recipient: r, kitty_id: id }
    &&& w == who
    &&& r == recipient
    &&& id == kitty_id
}

} // verus!
