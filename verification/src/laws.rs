//! Properties of the transition operations, stated over the mathematical
//! model [`State`] and proved once and for all: identifier monotonicity,
//! exhaustion behaviour, the precedence of the breed checks, transfer
//! revocation and lineage immutability.

use vstd::prelude::*;

use crate::pallet::State;
use crate::types::AccountId;
use crate::types::Error;
use crate::types::KittyID;

verus! {

/// The state after a whole sequence of creates, one per caller in `whos`.
pub open spec fn minted_many(s: State, whos: Seq<AccountId>) -> State
    decreases whos.len(),
{
    if whos.len() == 0 {
        s
    } else {
        minted_many(s.minted(whos[0]), whos.drop_first())
    }
}

/// The identifiers issued by a whole sequence of creates, in order.
pub open spec fn minted_ids(s: State, whos: Seq<AccountId>) -> Seq<KittyID>
    decreases whos.len(),
{
    if whos.len() == 0 {
        Seq::empty()
    } else {
        seq![s.allocated_id()] + minted_ids(s.minted(whos[0]), whos.drop_first())
    }
}

/// The identifier issued by the `i`-th create of a sequence is the starting
/// counter plus `i`, and the counter afterwards has advanced once per create.
pub proof fn lemma_minted_ids_values(s: State, whos: Seq<AccountId>)
    requires
        s.next_kitty_id + whos.len() <= KittyID::MAX,
    ensures
        minted_ids(s, whos).len() == whos.len(),
        forall|i: int| 0 <= i < whos.len() ==> minted_ids(s, whos)[i] == s.next_kitty_id + i,
        minted_many(s, whos).next_kitty_id == s.next_kitty_id + whos.len(),
    decreases whos.len(),
{
    if whos.len() != 0 {
        lemma_minted_ids_values(s.minted(whos[0]), whos.drop_first());
        assert forall|i: int| 0 <= i < whos.len() implies minted_ids(s, whos)[i]
            == s.next_kitty_id + i by {
            if i > 0 {
                assert(minted_ids(s, whos)[i] == minted_ids(
                    s.minted(whos[0]),
                    whos.drop_first(),
                )[i - 1]);
            }
        }
    }
}

/// For every sequence of successful creates, the identifiers issued are
/// strictly increasing and pairwise distinct.
pub proof fn lemma_mint_ids_strictly_increasing(s: State, whos: Seq<AccountId>)
    requires
        s.next_kitty_id + whos.len() <= KittyID::MAX,
    ensures
        forall|i: int, j: int|
            0 <= i < j < whos.len() ==> minted_ids(s, whos)[i] < minted_ids(s, whos)[j],
        forall|i: int, j: int|
            0 <= i < whos.len() && 0 <= j < whos.len() && i != j ==> minted_ids(s, whos)[i]
                != minted_ids(s, whos)[j],
{
    lemma_minted_ids_values(s, whos);
}

/// Once the allocator counter sits at the maximum identifier value, any
/// create fails with the exhaustion error and any breed fails as well,
/// whatever its arguments; the operations' contracts then pin the state as
/// unchanged.
pub proof fn lemma_exhaustion_rejects(
    s: State,
    who: AccountId,
    kitty_id_1: KittyID,
    kitty_id_2: KittyID,
)
    requires
        !s.can_allocate(),
    ensures
        s.create_check() == Some(Error::InValidKittyId),
        s.breed_check(who, kitty_id_1, kitty_id_2) is Some,
{
}

/// Breeding a kitty with itself is rejected with `SameKittyId` before any
/// existence or ownership check: the rejection holds whether or not the
/// kitty exists and whoever owns it.
pub proof fn lemma_breed_same_id_rejected_first(s: State, who: AccountId, kitty_id: KittyID)
    ensures
        s.breed_check(who, kitty_id, kitty_id) == Some(Error::SameKittyId),
{
}

/// Breeding distinct parents is rejected with `InValidKittyId` when either
/// parent has no existing kitty.
pub proof fn lemma_breed_missing_parent_rejected(
    s: State,
    who: AccountId,
    kitty_id_1: KittyID,
    kitty_id_2: KittyID,
)
    requires
        s.wf(),
        kitty_id_1 != kitty_id_2,
        !s.kitties.contains_key(kitty_id_1) || !s.kitties.contains_key(kitty_id_2),
    ensures
        s.breed_check(who, kitty_id_1, kitty_id_2) == Some(Error::InValidKittyId),
{
    assert(s.owners.contains_key(kitty_id_1) == s.kitties.contains_key(kitty_id_1));
    assert(s.owners.contains_key(kitty_id_2) == s.kitties.contains_key(kitty_id_2));
}

/// Breeding two existing, distinct parents is rejected with `NotOwner`
/// unless the caller owns both: owning only one of them is not enough.
pub proof fn lemma_breed_not_owner_rejected(
    s: State,
    who: AccountId,
    kitty_id_1: KittyID,
    kitty_id_2: KittyID,
)
    requires
        kitty_id_1 != kitty_id_2,
        s.owners.contains_key(kitty_id_1),
        s.owners.contains_key(kitty_id_2),
        s.owners[kitty_id_1] != who || s.owners[kitty_id_2] != who,
    ensures
        s.breed_check(who, kitty_id_1, kitty_id_2) == Some(Error::NotOwner),
{
}

/// After a successful transfer the recipient is the owner, and the previous
/// owner can no longer transfer the kitty: a further transfer by them is
/// rejected with `NotOwner`.
pub proof fn lemma_transfer_revokes_old_owner(
    s: State,
    who: AccountId,
    recipient: AccountId,
    kitty_id: KittyID,
)
    requires
        s.transfer_check(who, kitty_id) is None,
        recipient != who,
    ensures
        s.transferred(recipient, kitty_id).owners[kitty_id] == recipient,
        s.transferred(recipient, kitty_id).transfer_check(who, kitty_id) == Some(Error::NotOwner),
{
}

/// A create issues a kitty with no lineage record, and leaves every existing
/// lineage record exactly as it was.
pub proof fn lemma_create_lineage(s: State, who: AccountId)
    requires
        s.wf(),
        s.can_allocate(),
    ensures
        !s.minted(who).parents.contains_key(s.allocated_id()),
        forall|id: KittyID| #[trigger]
            s.parents.contains_key(id) ==> s.minted(who).parents.contains_key(id) && s.minted(
                who,
            ).parents[id] == s.parents[id],
{
}

/// A breed records exactly the parent pair supplied, and leaves every
/// existing lineage record exactly as it was.
pub proof fn lemma_breed_lineage(
    s: State,
    who: AccountId,
    kitty_id_1: KittyID,
    kitty_id_2: KittyID,
    selector: Seq<u8>,
)
    requires
        s.wf(),
        s.breed_check(who, kitty_id_1, kitty_id_2) is None,
    ensures
        s.bred(who, kitty_id_1, kitty_id_2, selector).parents[s.allocated_id()] == (
            kitty_id_1,
            kitty_id_2,
        ),
        forall|id: KittyID| #[trigger]
            s.parents.contains_key(id) ==> s.bred(
                who,
                kitty_id_1,
                kitty_id_2,
                selector,
            ).parents.contains_key(id) && s.bred(who, kitty_id_1, kitty_id_2, selector).parents[id]
                == s.parents[id],
{
    assert forall|id: KittyID| #[trigger] s.parents.contains_key(id) implies s.bred(
        who,
        kitty_id_1,
        kitty_id_2,
        selector,
    ).parents.contains_key(id) && s.bred(who, kitty_id_1, kitty_id_2, selector).parents[id]
        == s.parents[id] by {
        assert(s.kitties.contains_key(id));
        assert(id < s.next_kitty_id);
    }
}

/// A transfer changes no lineage record at all.
pub proof fn lemma_transfer_lineage(
    s: State,
    who: AccountId,
    recipient: AccountId,
    kitty_id: KittyID,
)
    ensures
        s.transferred(recipient, kitty_id).parents == s.parents,
{
}

} // verus!
