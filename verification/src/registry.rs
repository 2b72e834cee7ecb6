//! The registry store: the kitty count, the kitties and their owners.

use crate::account::AccountId;
use crate::genome::Kitty;
use std::collections::HashMap;
use vstd::prelude::*;
use vstd::std_specs::hash::*;

verus! {

broadcast use group_hash_axioms;

/// A kitty's number. Numbers are handed out from one upwards and never reused.
pub type KittyIndex = u32;

/// What a registry holds, as mathematics: how many kitties were ever made,
/// the genome stored under each number and the account stored under each
/// number.
pub struct RegistryView {
    pub count: nat,
    pub kitties: Map<KittyIndex, Seq<u8>>,
    pub owners: Map<KittyIndex, Seq<u8>>,
}

impl RegistryView {
    /// The registry before anything was written to it.
    pub open spec fn empty() -> RegistryView {
        RegistryView { count: 0, kitties: Map::empty(), owners: Map::empty() }
    }

    /// This registry after a kitty with `genome` was stored under `id` for
    /// `owner` and the count was moved to `id`.
    pub open spec fn born(self, id: KittyIndex, genome: Seq<u8>, owner: Seq<u8>) -> RegistryView {
        RegistryView {
            count: id as nat,
            kitties: self.kitties.insert(id, genome),
            owners: self.owners.insert(id, owner),
        }
    }

    /// This registry after kitty `id` was given to `owner`.
    pub open spec fn handed_to(self, id: KittyIndex, owner: Seq<u8>) -> RegistryView {
        RegistryView { owners: self.owners.insert(id, owner), ..self }
    }

    /// Whether `account` is recorded as the owner of kitty `id`.
    pub open spec fn owned_by(self, id: KittyIndex, account: Seq<u8>) -> bool {
        self.owners.contains_key(id) && self.owners[id] == account
    }

    /// The consistency that creating, breeding and transferring keep: the
    /// kitties are exactly those numbered from one to the count, and a
    /// number has an owner exactly when it has a kitty.
    pub open spec fn wf(self) -> bool {
        &&& self.count <= u32::MAX
        &&& forall|id: KittyIndex| #[trigger]
            self.kitties.contains_key(id) <==> 1 <= id <= self.count
        &&& forall|id: KittyIndex| #[trigger]
            self.owners.contains_key(id) <==> self.kitties.contains_key(id)
    }
}

/// The store behind the three transitions. Its writes are unconditional:
/// whoever calls them keeps the registry consistent.
pub struct Registry {
    count: Option<u32>,
    kitties: HashMap<KittyIndex, Kitty>,
    owners: HashMap<KittyIndex, AccountId>,
}

impl View for Registry {
    type V = RegistryView;

    closed spec fn view(&self) -> RegistryView {
        RegistryView {
            count: match self.count {
                Some(n) => n as nat,
                None => 0,
            },
            kitties: self.kitties@.map_values(|k: Kitty| k@),
            owners: self.owners@.map_values(|a: AccountId| a@),
        }
    }
}

impl Registry {
    /// A registry with no count set, no kitties and no owners.
    pub fn new() -> (registry: Registry)
        ensures
            registry@ == RegistryView::empty(),
            registry@.wf(),
    {
        let registry = Registry { count: None, kitties: HashMap::new(), owners: HashMap::new() };
        assert(registry@.kitties =~= Map::empty());
        assert(registry@.owners =~= Map::empty());
        registry
    }

    /// The number of kitties made so far: zero while no count was ever set.
    pub fn get_count(&self) -> (count: u32)
        ensures
            count == self@.count,
    {
        match self.count {
            Some(n) => n,
            None => 0,
        }
    }

    /// The kitty stored under `id`, if there is one.
    pub fn get_entity(&self, id: KittyIndex) -> (kitty: Option<Kitty>)
        ensures
            kitty is Some <==> self@.kitties.contains_key(id),
            kitty is Some ==> kitty->0@ == self@.kitties[id],
    {
        match self.kitties.get(&id) {
            Some(kitty) => Some(*kitty),
            None => None,
        }
    }

    /// The account stored as owner of `id`, if there is one.
    pub fn get_owner(&self, id: KittyIndex) -> (owner: Option<AccountId>)
        ensures
            owner is Some <==> self@.owners.contains_key(id),
            owner is Some ==> owner->0@ == self@.owners[id],
    {
        match self.owners.get(&id) {
            Some(owner) => Some(*owner),
            None => None,
        }
    }

    /// Stores `kitty` under `id`, over whatever was there.
    pub fn put_entity(&mut self, id: KittyIndex, kitty: Kitty)
        ensures
            final(self)@ == (RegistryView {
                kitties: old(self)@.kitties.insert(id, kitty@),
                ..old(self)@
            }),
    {
        self.kitties.insert(id, kitty);
        assert(final(self)@.kitties =~= old(self)@.kitties.insert(id, kitty@));
    }

    /// Stores `account` as the owner of `id`, over whatever was there.
    pub fn put_owner(&mut self, id: KittyIndex, account: AccountId)
        ensures
            final(self)@ == old(self)@.handed_to(id, account@),
    {
        self.owners.insert(id, account);
        assert(final(self)@.owners =~= old(self)@.owners.insert(id, account@));
    }

    /// Sets the count to `n`.
    pub fn set_count(&mut self, n: u32)
        ensures
            final(self)@ == (RegistryView { count: n as nat, ..old(self)@ }),
    {
        self.count = Some(n);
    }

    /// Every count a registry can hold fits the kitty numbers, every genome
    /// has sixteen bytes and every account thirty-two.
    pub proof fn lemma_bounds(&self)
        ensures
            self@.count <= u32::MAX,
            forall|id: KittyIndex| #[trigger]
                self@.kitties.contains_key(id) ==> self@.kitties[id].len() == 16,
            forall|id: KittyIndex| #[trigger]
                self@.owners.contains_key(id) ==> self@.owners[id].len() == 32,
    {
    }
}

} // verus!
