//! The registry itself: a service object holding the identifier allocator,
//! the entity map, the ownership map, the lineage map and the event log, with
//! the three transition operations `create`, `breed` and `transfer`.
//!
//! Every operation is verified against [`State`], the mathematical model of
//! the stored data: each contract pins the exact post-state (or that the
//! state is unchanged) and the exact error, for every input.

use vstd::prelude::*;

use crate::combinator::combine;
use crate::combinator::combine_payload;
use crate::randomness::selector_of;
use crate::types::is_bred_event;
use crate::types::is_created_event;
use crate::types::is_transferred_event;
use crate::types::zero_payload;
use crate::types::AccountId;
use crate::types::Error;
use crate::types::Event;
use crate::types::Kitty;
use crate::types::KittyID;
use vstd::hash_map::HashMapWithView;

verus! {

broadcast use vstd::std_specs::hash::group_hash_axioms;

/// The mathematical model of the stored data: the allocator counter and the
/// three maps, with entity payloads abstracted to byte sequences.
#[verifier::ext_equal]
pub struct State {
    /// The next identifier to hand out; strictly greater than every
    /// identifier ever issued.
    pub next_kitty_id: KittyID,
    /// Identifier to genetic payload, for every existing kitty.
    pub kitties: Map<KittyID, Seq<u8>>,
    /// Identifier to current owner, for every existing kitty.
    pub owners: Map<KittyID, AccountId>,
    /// Identifier to parent pair, for bred kitties only.
    pub parents: Map<KittyID, (KittyID, KittyID)>,
}

impl State {
    /// The state of a freshly constructed registry: counter at zero, no
    /// kitties, no owners, no lineage.
    pub open spec fn initial() -> State {
        State {
            next_kitty_id: 0,
            kitties: Map::empty(),
            owners: Map::empty(),
            parents: Map::empty(),
        }
    }

    /// Well-formedness of the stored data:
    /// - owners and kitties record exactly the same identifiers;
    /// - every lineage record belongs to an existing kitty;
    /// - every recorded identifier is below the allocator counter;
    /// - every payload is 16 bytes;
    /// - lineage parents are distinct, exist, and were issued before their
    ///   child.
    pub open spec fn wf(self) -> bool {
        &&& self.owners.dom() == self.kitties.dom()
        &&& self.parents.dom().subset_of(self.kitties.dom())
        &&& forall|id: KittyID| #[trigger] self.kitties.contains_key(id) ==> id < self.next_kitty_id
        &&& forall|id: KittyID| #[trigger]
            self.kitties.contains_key(id) ==> self.kitties[id].len() == 16
        &&& forall|id: KittyID| #[trigger] self.parents.contains_key(id) ==> {
            &&& self.parents[id].0 != self.parents[id].1
            &&& self.kitties.contains_key(self.parents[id].0)
            &&& self.kitties.contains_key(self.parents[id].1)
            &&& self.parents[id].0 < id
            &&& self.parents[id].1 < id
        }
    }

    /// Whether the allocator can still hand out an identifier.
    pub open spec fn can_allocate(self) -> bool {
        self.next_kitty_id < KittyID::MAX
    }

    /// The identifier the next successful allocation returns.
    pub open spec fn allocated_id(self) -> KittyID {
        self.next_kitty_id
    }

    /// Why a create call fails, or `None` when it succeeds: it fails exactly
    /// when the identifier space is exhausted.
    pub open spec fn create_check(self) -> Option<Error> {
        if !self.can_allocate() {
            Some(Error::InValidKittyId)
        } else {
            None
        }
    }

    /// The state after a successful create by `who`: one fresh kitty with an
    /// all-zero payload, owned by `who`, with no lineage record.
    pub open spec fn minted(self, who: AccountId) -> State {
        State {
            next_kitty_id: (self.next_kitty_id + 1) as KittyID,
            kitties: self.kitties.insert(self.next_kitty_id, zero_payload()),
            owners: self.owners.insert(self.next_kitty_id, who),
            parents: self.parents,
        }
    }

    /// Why a breed call fails, or `None` when it succeeds, in the order the
    /// checks are made: equal parents first, then existence of each parent,
    /// then ownership of each parent, then allocator exhaustion.
    pub open spec fn breed_check(self, who: AccountId, kitty_id_1: KittyID, kitty_id_2: KittyID) -> Option<
        Error,
    > {
        if kitty_id_1 == kitty_id_2 {
            Some(Error::SameKittyId)
        } else if !self.owners.contains_key(kitty_id_1) {
            Some(Error::InValidKittyId)
        } else if !self.owners.contains_key(kitty_id_2) {
            Some(Error::InValidKittyId)
        } else if self.owners[kitty_id_1] != who {
            Some(Error::NotOwner)
        } else if self.owners[kitty_id_2] != who {
            Some(Error::NotOwner)
        } else if !self.can_allocate() {
            Some(Error::InValidKittyId)
        } else {
            None
        }
    }

    /// The state after a successful breed by `who` of the two parents under
    /// `selector`: one fresh kitty whose payload is the bitwise crossover of
    /// the parents' payloads, owned by `who`, with the parent pair recorded.
    pub open spec fn bred(
        self,
        who: AccountId,
        kitty_id_1: KittyID,
        kitty_id_2: KittyID,
        selector: Seq<u8>,
    ) -> State {
        State {
            next_kitty_id: (self.next_kitty_id + 1) as KittyID,
            kitties: self.kitties.insert(
                self.next_kitty_id,
                combine_payload(self.kitties[kitty_id_1], self.kitties[kitty_id_2], selector),
            ),
            owners: self.owners.insert(self.next_kitty_id, who),
            parents: self.parents.insert(self.next_kitty_id, (kitty_id_1, kitty_id_2)),
        }
    }

    /// Why a transfer call fails, or `None` when it succeeds: the kitty must
    /// exist and the caller must be its current owner. The recipient is not
    /// validated: any identity is accepted as the new owner.
    pub open spec fn transfer_check(self, who: AccountId, kitty_id: KittyID) -> Option<Error> {
        if !self.owners.contains_key(kitty_id) {
            Some(Error::InValidKittyId)
        } else if self.owners[kitty_id] != who {
            Some(Error::NotOwner)
        } else {
            None
        }
    }

    /// The state after a successful transfer of `kitty_id` to `recipient`:
    /// only the ownership record of that kitty changes.
    pub open spec fn transferred(self, recipient: AccountId, kitty_id: KittyID) -> State {
        State { owners: self.owners.insert(kitty_id, recipient), ..self }
    }
}

/// The registry service object. All mutation goes through `create`, `breed`
/// and `transfer` (and the allocator helper `get_next_id`), each of which is
/// an atomic transition: it either commits the whole change it promises or
/// leaves the registry exactly as it was.
pub struct Pallet {
    next_kitty_id: KittyID,
    kitties: HashMapWithView<KittyID, Kitty>,
    kitty_owner: HashMapWithView<KittyID, AccountId>,
    kitty_parents: HashMapWithView<KittyID, (KittyID, KittyID)>,
    events: Vec<Event>,
}

impl View for Pallet {
    type V = State;

    closed spec fn view(&self) -> State {
        State {
            next_kitty_id: self.next_kitty_id,
            kitties: self.kitties@.map_values(|k: Kitty| k@),
            owners: self.kitty_owner@,
            parents: self.kitty_parents@,
        }
    }
}

impl Pallet {
    /// Well-formedness of the registry: its model is well-formed.
    pub open spec fn wf(self) -> bool {
        self@.wf()
    }

    /// The events recorded so far, oldest first.
    pub closed spec fn events_log(self) -> Seq<Event> {
        self.events@
    }

    /// A fresh, empty registry.
    pub fn new() -> (r: Pallet)
        ensures
            r.wf(),
            r@ =~= State::initial(),
            r.events_log() =~= Seq::<Event>::empty(),
    {
        let pallet = Pallet {
            next_kitty_id: 0,
            kitties: HashMapWithView::new(),
            kitty_owner: HashMapWithView::new(),
            kitty_parents: HashMapWithView::new(),
            events: Vec::new(),
        };
        proof {
            assert(pallet@ =~= State::initial());
        }
        pallet
    }

    /// The identifier allocator: returns the current counter value as the
    /// newly issued identifier and advances the counter by one, or fails
    /// without consuming anything when the counter is already at the maximum
    /// representable value.
    pub fn get_next_id(&mut self) -> (r: Result<KittyID, Error>)
        ensures
            match r {
                Ok(id) => {
                    &&& old(self)@.can_allocate()
                    &&& id == old(self)@.allocated_id()
                    &&& final(self)@ =~= (State {
                        next_kitty_id: (old(self)@.next_kitty_id + 1) as KittyID,
                        ..old(self)@
                    })
                    &&& final(self).events_log() == old(self).events_log()
                },
                Err(e) => {
                    &&& !old(self)@.can_allocate()
                    &&& e == Error::InValidKittyId
                    &&& *final(self) == *old(self)
                },
            },
    {
        if self.next_kitty_id == KittyID::MAX {
            Err(Error::InValidKittyId)
        } else {
            let current_id = self.next_kitty_id;
            self.next_kitty_id = current_id + 1;
            Ok(current_id)
        }
    }

    /// Create (mint) a fresh kitty for `who`: allocates the next identifier,
    /// stores an all-zero payload owned by `who`, records no lineage, and
    /// appends a `KittyCreated` event. Fails exactly when the identifier
    /// space is exhausted, leaving everything unchanged.
    pub fn create(&mut self, who: AccountId) -> (r: Result<(), Error>)
        requires
            old(self).wf(),
        ensures
            final(self).wf(),
            match r {
                Ok(_) => {
                    &&& old(self)@.create_check() is None
                    &&& final(self)@ =~= old(self)@.minted(who)
                    &&& final(self).events_log().len() == old(self).events_log().len() + 1
                    &&& final(self).events_log().take(old(self).events_log().len() as int) == old(
                        self,
                    ).events_log()
                    &&& is_created_event(
                        final(self).events_log().last(),
                        who,
                        old(self)@.allocated_id(),
                        zero_payload(),
                    )
                },
                Err(e) => {
                    &&& old(self)@.create_check() == Some(e)
                    &&& *final(self) == *old(self)
                },
            },
    {
        let kitty_id = match self.get_next_id() {
            Ok(id) => id,
            Err(e) => {
                return Err(e);
            },
        };
        let kitty = Kitty([0u8; 16]);
        proof {
            assert(kitty@ =~= zero_payload());
        }
        self.kitties.insert(kitty_id, kitty);
        self.kitty_owner.insert(kitty_id, who);
        self.events.push(Event::KittyCreated { who, kitty_id, kitty });
        proof {
            assert(self@.kitties =~= old(self)@.kitties.insert(kitty_id, zero_payload()));
            assert(self@ =~= old(self)@.minted(who));
            assert(self.events_log().take(old(self).events_log().len() as int) =~= old(
                self,
            ).events_log());
            lemma_minted_preserves_wf(old(self)@, who);
        }
        Ok(())
    }

    /// Breed a fresh kitty for `who` from two distinct parents `who` owns:
    /// allocates the next identifier, stores the bitwise crossover of the
    /// parents' payloads under the selector derived from `seed`, `who` and
    /// `extrinsic_index`, records the parent pair, and appends a `KittyBred`
    /// event. The error cases, in the order they are checked, are pinned by
    /// [`State::breed_check`]; every failure leaves everything unchanged.
    pub fn breed(
        &mut self,
        who: AccountId,
        kitty_id_1: KittyID,
        kitty_id_2: KittyID,
        seed: &[u8; 32],
        extrinsic_index: u32,
    ) -> (r: Result<(), Error>)
        requires
            old(self).wf(),
        ensures
            final(self).wf(),
            match r {
                Ok(_) => {
                    &&& old(self)@.breed_check(who, kitty_id_1, kitty_id_2) is None
                    &&& final(self)@ =~= old(self)@.bred(
                        who,
                        kitty_id_1,
                        kitty_id_2,
                        selector_of(seed@, who, extrinsic_index),
                    )
                    &&& final(self).events_log().len() == old(self).events_log().len() + 1
                    &&& final(self).events_log().take(old(self).events_log().len() as int) == old(
                        self,
                    ).events_log()
                    &&& is_bred_event(
                        final(self).events_log().last(),
                        who,
                        old(self)@.allocated_id(),
                        combine_payload(
                            old(self)@.kitties[kitty_id_1],
                            old(self)@.kitties[kitty_id_2],
                            selector_of(seed@, who, extrinsic_index),
                        ),
                    )
                },
                Err(e) => {
                    &&& old(self)@.breed_check(who, kitty_id_1, kitty_id_2) == Some(e)
                    &&& *final(self) == *old(self)
                },
            },
    {
        if kitty_id_1 == kitty_id_2 {
            return Err(Error::SameKittyId);
        }
        if !self.kitty_owner.contains_key(&kitty_id_1) {
            return Err(Error::InValidKittyId);
        }
        if !self.kitty_owner.contains_key(&kitty_id_2) {
            return Err(Error::InValidKittyId);
        }
        let owns_1 = match self.kitty_owner.get(&kitty_id_1) {
            Some(owner) => *owner == who,
            None => false,
        };
        if !owns_1 {
            return Err(Error::NotOwner);
        }
        let owns_2 = match self.kitty_owner.get(&kitty_id_2) {
            Some(owner) => *owner == who,
            None => false,
        };
        if !owns_2 {
            return Err(Error::NotOwner);
        }
        let kitty_id = match self.get_next_id() {
            Ok(id) => id,
            Err(e) => {
                return Err(e);
            },
        };
        let kitty1 = match self.kitties.get(&kitty_id_1) {
            Some(k) => *k,
            None => {
                proof {
                    assert(false);
                }
                return Err(Error::InValidKittyId);
            },
        };
        let kitty2 = match self.kitties.get(&kitty_id_2) {
            Some(k) => *k,
            None => {
                proof {
                    assert(false);
                }
                return Err(Error::InValidKittyId);
            },
        };
        let selector = Pallet::random_value(who, seed, extrinsic_index);
        let kitty = combine(&kitty1, &kitty2, &selector);
        self.kitties.insert(kitty_id, kitty);
        self.kitty_owner.insert(kitty_id, who);
        self.kitty_parents.insert(kitty_id, (kitty_id_1, kitty_id_2));
        self.events.push(Event::KittyBred { who, kitty_id, kitty });
        proof {
            let sel = selector_of(seed@, who, extrinsic_index);
            assert(old(self)@.kitties[kitty_id_1] == kitty1@);
            assert(old(self)@.kitties[kitty_id_2] == kitty2@);
            assert(self@.kitties =~= old(self)@.kitties.insert(
                kitty_id,
                combine_payload(old(self)@.kitties[kitty_id_1], old(self)@.kitties[kitty_id_2], sel),
            ));
            assert(self@ =~= old(self)@.bred(who, kitty_id_1, kitty_id_2, sel));
            assert(self.events_log().take(old(self).events_log().len() as int) =~= old(
                self,
            ).events_log());
            lemma_bred_preserves_wf(old(self)@, who, kitty_id_1, kitty_id_2, sel);
        }
        Ok(())
    }

    /// Transfer `kitty_id` from its current owner `who` to `recipient` and
    /// append a `KittyTransfered` event. Fails with `InValidKittyId` when no
    /// such kitty exists and with `NotOwner` when `who` is not its owner,
    /// leaving everything unchanged.
    pub fn transfer(&mut self, who: AccountId, recipient: AccountId, kitty_id: KittyID) -> (r:
        Result<(), Error>)
        requires
            old(self).wf(),
        ensures
            final(self).wf(),
            match r {
                Ok(_) => {
                    &&& old(self)@.transfer_check(who, kitty_id) is None
                    &&& final(self)@ =~= old(self)@.transferred(recipient, kitty_id)
                    &&& final(self).events_log().len() == old(self).events_log().len() + 1
                    &&& final(self).events_log().take(old(self).events_log().len() as int) == old(
                        self,
                    ).events_log()
                    &&& is_transferred_event(
                        final(self).events_log().last(),
                        who,
                        recipient,
                        kitty_id,
                    )
                },
                Err(e) => {
                    &&& old(self)@.transfer_check(who, kitty_id) == Some(e)
                    &&& *final(self) == *old(self)
                },
            },
    {
        if !self.kitty_owner.contains_key(&kitty_id) {
            return Err(Error::InValidKittyId);
        }
        let owner = match self.kitty_owner.get(&kitty_id) {
            Some(owner) => *owner,
            None => {
                proof {
                    assert(false);
                }
                return Err(Error::InValidKittyId);
            },
        };
        if owner != who {
            return Err(Error::NotOwner);
        }
        self.kitty_owner.insert(kitty_id, recipient);
        self.events.push(Event::KittyTransfered { who, recipient, kitty_id });
        proof {
            assert(self@ =~= old(self)@.transferred(recipient, kitty_id));
            assert(self.events_log().take(old(self).events_log().len() as int) =~= old(
                self,
            ).events_log());
            lemma_transferred_preserves_wf(old(self)@, who, recipient, kitty_id);
        }
        Ok(())
    }

    /// The current allocator counter.
    pub fn next_kitty_id(&self) -> (r: KittyID)
        ensures
            r == self@.next_kitty_id,
    {
        self.next_kitty_id
    }

    /// The kitty stored under `kitty_id`, if any.
    pub fn kitties(&self, kitty_id: KittyID) -> (r: Option<Kitty>)
        ensures
            match r {
                Some(k) => self@.kitties.contains_key(kitty_id) && k@ == self@.kitties[kitty_id],
                None => !self@.kitties.contains_key(kitty_id),
            },
    {
        match self.kitties.get(&kitty_id) {
            Some(k) => Some(*k),
            None => None,
        }
    }

    /// The current owner of `kitty_id`, if such a kitty exists.
    pub fn kitty_owner(&self, kitty_id: KittyID) -> (r: Option<AccountId>)
        ensures
            match r {
                Some(who) => self@.owners.contains_key(kitty_id) && who == self@.owners[kitty_id],
                None => !self@.owners.contains_key(kitty_id),
            },
    {
        match self.kitty_owner.get(&kitty_id) {
            Some(who) => Some(*who),
            None => None,
        }
    }

    /// The recorded parent pair of `kitty_id`: present exactly for bred
    /// kitties, absent for created (minted) ones.
    pub fn kitty_parents(&self, kitty_id: KittyID) -> (r: Option<(KittyID, KittyID)>)
        ensures
            match r {
                Some(p) => self@.parents.contains_key(kitty_id) && p == self@.parents[kitty_id],
                None => !self@.parents.contains_key(kitty_id),
            },
    {
        match self.kitty_parents.get(&kitty_id) {
            Some(p) => Some(*p),
            None => None,
        }
    }

    /// The events recorded so far, oldest first.
    pub fn events(&self) -> (r: &Vec<Event>)
        ensures
            r@ == self.events_log(),
    {
        &self.events
    }

    /// Overwrite the allocator counter, raising it to `kitty_id`. Lowering
    /// it is refused, since a reissued identifier would break uniqueness.
    pub fn set_next_kitty_id(&mut self, kitty_id: KittyID)
        requires
            old(self).wf(),
            kitty_id >= old(self)@.next_kitty_id,
        ensures
            final(self).wf(),
            final(self)@ =~= (State { next_kitty_id: kitty_id, ..old(self)@ }),
            final(self).events_log() == old(self).events_log(),
    {
        self.next_kitty_id = kitty_id;
    }
}

/// A successful create preserves well-formedness.
pub proof fn lemma_minted_preserves_wf(s: State, who: AccountId)
    requires
        s.wf(),
        s.can_allocate(),
    ensures
        s.minted(who).wf(),
{
    let post = s.minted(who);
    assert(post.owners.dom() =~= post.kitties.dom());
}

/// A successful breed preserves well-formedness.
pub proof fn lemma_bred_preserves_wf(
    s: State,
    who: AccountId,
    kitty_id_1: KittyID,
    kitty_id_2: KittyID,
    selector: Seq<u8>,
)
    requires
        s.wf(),
        s.breed_check(who, kitty_id_1, kitty_id_2) is None,
    ensures
        s.bred(who, kitty_id_1, kitty_id_2, selector).wf(),
{
    let post = s.bred(who, kitty_id_1, kitty_id_2, selector);
    assert(post.owners.dom() =~= post.kitties.dom());
    assert(post.parents.dom().subset_of(post.kitties.dom()));
}

/// A successful transfer preserves well-formedness.
pub proof fn lemma_transferred_preserves_wf(
    s: State,
    who: AccountId,
    recipient: AccountId,
    kitty_id: KittyID,
)
    requires
        s.wf(),
        s.transfer_check(who, kitty_id) is None,
    ensures
        s.transferred(recipient, kitty_id).wf(),
{
    let post = s.transferred(recipient, kitty_id);
    assert(post.owners.dom() =~= post.kitties.dom());
}

} // verus!
