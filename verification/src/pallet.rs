//! The three transitions on the registry: create, transfer and breed.

use crate::account::AccountId;
use crate::entropy::{blake2_128, drawn, encode_payload, Entropy};
use crate::events::{Error, Event};
use crate::genome::{crossover, Kitty};
use crate::registry::{KittyIndex, Registry, RegistryView};
use vstd::prelude::*;

verus! {

/// Why `create` is refused in state `s`, if it is.
pub open spec fn create_error(s: RegistryView) -> Option<Error> {
    if s.count >= u32::MAX {
        Some(Error::KittiesCountOverflow)
    } else {
        None
    }
}

/// Why `transfer` of kitty `id` by `who` is refused in state `s`, if it is.
pub open spec fn transfer_error(s: RegistryView, who: Seq<u8>, id: KittyIndex) -> Option<Error> {
    if !s.owned_by(id, who) {
        Some(Error::NotOwner)
    } else {
        None
    }
}

/// Why `breed` of `id_1` with `id_2` is refused in state `s`, if it is. The
/// parents are looked at first, the count last.
pub open spec fn breed_error(s: RegistryView, id_1: KittyIndex, id_2: KittyIndex) -> Option<Error> {
    if id_1 == id_2 {
        Some(Error::SameParentIndex)
    } else if !s.kitties.contains_key(id_1) || !s.kitties.contains_key(id_2) {
        Some(Error::InvalidKittyIndex)
    } else {
        create_error(s)
    }
}

/// The number that the next kitty gets in state `s`.
pub open spec fn next_index(s: RegistryView) -> KittyIndex {
    (s.count + 1) as KittyIndex
}

/// The kitties module: a registry and the transitions on it.
pub struct Pallet {
    pub store: Registry,
}

impl View for Pallet {
    type V = RegistryView;

    open spec fn view(&self) -> RegistryView {
        self.store@
    }
}

impl Pallet {
    /// A module over an empty registry.
    pub fn new() -> (pallet: Pallet)
        ensures
            pallet@ == RegistryView::empty(),
            pallet@.wf(),
    {
        Pallet { store: Registry::new() }
    }

    /// The number for the next kitty, unless the count is at its largest.
    fn resolve_index(&self) -> (index: Result<KittyIndex, Error>)
        ensures
            match create_error(self@) {
                Some(e) => index == Err::<KittyIndex, Error>(e),
                None => index == Ok::<KittyIndex, Error>(next_index(self@)),
            },
    {
        let count = self.store.get_count();
        if count == u32::MAX {
            Err(Error::KittiesCountOverflow)
        } else {
            Ok(count + 1)
        }
    }

    /// Stores a new kitty with genome `dna` for `who` under `id` and moves
    /// the count there.
    fn commit(&mut self, who: AccountId, id: KittyIndex, dna: [u8; 16]) -> (event: Event)
        ensures
            final(self)@ == old(self)@.born(id, dna@, who@),
            event == Event::KittyCreate(who, id),
    {
        self.store.put_entity(id, Kitty(dna));
        self.store.put_owner(id, who);
        self.store.set_count(id);
        Event::KittyCreate(who, id)
    }

    /// Draws the sixteen bytes for `sender` from `entropy`. The same seed,
    /// sender and index always give the same bytes.
    pub fn random_value(entropy: &Entropy, sender: &AccountId) -> (value: [u8; 16])
        ensures
            value@ == drawn(*entropy, sender@),
    {
        let bytes = encode_payload(entropy, sender);
        blake2_128(bytes.as_slice())
    }

    /// Creates a kitty with the genome `dna`, owned by `who`, under the next
    /// number. Refused with `KittiesCountOverflow` when no number is left.
    pub fn create_with_genome(&mut self, who: AccountId, dna: [u8; 16]) -> (result: Result<
        Event,
        Error,
    >)
        ensures
            match create_error(old(self)@) {
                Some(e) => result == Err::<Event, Error>(e) && final(self)@ == old(self)@,
                None => {
                    let id = next_index(old(self)@);
                    &&& result == Ok::<Event, Error>(Event::KittyCreate(who, id))
                    &&& final(self)@ == old(self)@.born(id, dna@, who@)
                    &&& final(self)@.kitties.contains_key(id)
                    &&& final(self)@.owned_by(id, who@)
                    &&& final(self)@.count == old(self)@.count + 1
                },
            },
            old(self)@.wf() ==> final(self)@.wf(),
    {
        let id = self.resolve_index()?;
        Ok(self.commit(who, id, dna))
    }

    /// Creates a kitty for `who` whose genome is drawn from `entropy`.
    pub fn create(&mut self, who: AccountId, entropy: &Entropy) -> (result: Result<Event, Error>)
        ensures
            match create_error(old(self)@) {
                Some(e) => result == Err::<Event, Error>(e) && final(self)@ == old(self)@,
                None => {
                    let id = next_index(old(self)@);
                    &&& result == Ok::<Event, Error>(Event::KittyCreate(who, id))
                    &&& final(self)@ == old(self)@.born(id, drawn(*entropy, who@), who@)
                    &&& final(self)@.kitties.contains_key(id)
                    &&& final(self)@.owned_by(id, who@)
                    &&& final(self)@.count == old(self)@.count + 1
                },
            },
            old(self)@.wf() ==> final(self)@.wf(),
    {
        let dna = Self::random_value(entropy, &who);
        self.create_with_genome(who, dna)
    }

    /// Hands kitty `kitty_id` from `who` to `new_owner`. Refused with
    /// `NotOwner` unless `who` is its owner. Only the owner of that one kitty
    /// changes: the count and every genome stay as they were.
    pub fn transfer(&mut self, who: AccountId, new_owner: AccountId, kitty_id: KittyIndex) -> (result:
        Result<Event, Error>)
        ensures
            match transfer_error(old(self)@, who@, kitty_id) {
                Some(e) => result == Err::<Event, Error>(e) && final(self)@ == old(self)@,
                None => {
                    &&& result == Ok::<Event, Error>(Event::KittyTransfer(who, new_owner, kitty_id))
                    &&& final(self)@ == old(self)@.handed_to(kitty_id, new_owner@)
                },
            },
            final(self)@.kitties == old(self)@.kitties,
            final(self)@.count == old(self)@.count,
            old(self)@.wf() ==> final(self)@.wf(),
    {
        let is_owner = match self.store.get_owner(kitty_id) {
            Some(owner) => owner.same(&who),
            None => false,
        };
        if !is_owner {
            return Err(Error::NotOwner);
        }
        self.store.put_owner(kitty_id, new_owner);
        Ok(Event::KittyTransfer(who, new_owner, kitty_id))
    }

    /// Breeds kitties `kitty_id_1` and `kitty_id_2` under the mask
    /// `selector`: the child takes each bit from the first parent where the
    /// mask has a one and from the second where it has a zero. The child
    /// gets the next number and belongs to `who`.
    pub fn breed_with_selector(
        &mut self,
        who: AccountId,
        kitty_id_1: KittyIndex,
        kitty_id_2: KittyIndex,
        selector: [u8; 16],
    ) -> (result: Result<Event, Error>)
        ensures
            match breed_error(old(self)@, kitty_id_1, kitty_id_2) {
                Some(e) => result == Err::<Event, Error>(e) && final(self)@ == old(self)@,
                None => {
                    let id = next_index(old(self)@);
                    let child = crossover(
                        selector@,
                        old(self)@.kitties[kitty_id_1],
                        old(self)@.kitties[kitty_id_2],
                    );
                    &&& result == Ok::<Event, Error>(Event::KittyCreate(who, id))
                    &&& final(self)@ == old(self)@.born(id, child, who@)
                    &&& final(self)@.kitties.contains_key(id)
                    &&& final(self)@.owned_by(id, who@)
                    &&& final(self)@.count == old(self)@.count + 1
                },
            },
            old(self)@.wf() ==> final(self)@.wf(),
    {
        if kitty_id_1 == kitty_id_2 {
            return Err(Error::SameParentIndex);
        }
        let kitty1 = match self.store.get_entity(kitty_id_1) {
            Some(kitty) => kitty,
            None => { return Err(Error::InvalidKittyIndex); },
        };
        let kitty2 = match self.store.get_entity(kitty_id_2) {
            Some(kitty) => kitty,
            None => { return Err(Error::InvalidKittyIndex); },
        };
        let id = self.resolve_index()?;
        let new_dna = Kitty::combine(&selector, &kitty1.0, &kitty2.0);
        Ok(self.commit(who, id, new_dna))
    }

    /// Breeds kitties `kitty_id_1` and `kitty_id_2` under a mask drawn from
    /// `entropy`.
    pub fn breed(
        &mut self,
        who: AccountId,
        kitty_id_1: KittyIndex,
        kitty_id_2: KittyIndex,
        entropy: &Entropy,
    ) -> (result: Result<Event, Error>)
        ensures
            match breed_error(old(self)@, kitty_id_1, kitty_id_2) {
                Some(e) => result == Err::<Event, Error>(e) && final(self)@ == old(self)@,
                None => {
                    let id = next_index(old(self)@);
                    let child = crossover(
                        drawn(*entropy, who@),
                        old(self)@.kitties[kitty_id_1],
                        old(self)@.kitties[kitty_id_2],
                    );
                    &&& result == Ok::<Event, Error>(Event::KittyCreate(who, id))
                    &&& final(self)@ == old(self)@.born(id, child, who@)
                    &&& final(self)@.kitties.contains_key(id)
                    &&& final(self)@.owned_by(id, who@)
                    &&& final(self)@.count == old(self)@.count + 1
                },
            },
            old(self)@.wf() ==> final(self)@.wf(),
    {
        let selector = Self::random_value(entropy, &who);
        self.breed_with_selector(who, kitty_id_1, kitty_id_2, selector)
    }
}

} // verus!
