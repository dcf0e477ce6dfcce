use std::collections::HashMap;

use vstd::prelude::*;

use crate::error::Error;
use crate::genome::Kitty;

verus! {

broadcast use vstd::std_specs::hash::group_hash_axioms;

/// The single integer under which the kitty `id` of `owner` is kept: the
/// owner in the high bits, the id in the low 32.
pub open spec fn slot(owner: u64, id: u32) -> u128 {
    ((owner as u128) << 32u128) | (id as u128)
}

/// Distinct (owner, id) pairs are kept under distinct slots.
proof fn lemma_slot_injective(o1: u64, i1: u32, o2: u64, i2: u32)
    ensures
        slot(o1, i1) == slot(o2, i2) ==> o1 == o2 && i1 == i2,
{
    assert(((o1 as u128) << 32u128) | (i1 as u128) == ((o2 as u128) << 32u128) | (i2 as u128)
        ==> o1 == o2 && i1 == i2) by (bit_vector);
}

/// The kitties, keyed by owner and id. A key, once filled, is never emptied
/// or overwritten.
pub struct KittyStore {
    slots: HashMap<u128, Kitty>,
}

/// What `get` answers for a key of a store whose contents are `m`.
pub open spec fn store_get(m: Map<(u64, u32), Kitty>, key: (u64, u32)) -> Result<Kitty, Error> {
    if m.contains_key(key) {
        Ok(m[key])
    } else {
        Err(Error::InvalidKittyId)
    }
}

/// What `insert` does to a store whose contents are `m`: the result, and the
/// contents after it.
pub open spec fn store_insert(m: Map<(u64, u32), Kitty>, key: (u64, u32), kitty: Kitty) -> (
    Result<(), Error>,
    Map<(u64, u32), Kitty>,
) {
    if m.contains_key(key) {
        (Err(Error::DuplicateKittyId), m)
    } else {
        (Ok(()), m.insert(key, kitty))
    }
}

impl View for KittyStore {
    type V = Map<(u64, u32), Kitty>;

    closed spec fn view(&self) -> Map<(u64, u32), Kitty> {
        Map::new(
            |k: (u64, u32)| self.slots@.contains_key(slot(k.0, k.1)),
            |k: (u64, u32)| self.slots@[slot(k.0, k.1)],
        )
    }
}

fn slot_of(owner: u64, id: u32) -> (r: u128)
    ensures
        r == slot(owner, id),
{
    ((owner as u128) << 32u128) | (id as u128)
}

impl KittyStore {
    /// A store that holds no kitty.
    pub fn new() -> (r: KittyStore)
        ensures
            r@ == Map::<(u64, u32), Kitty>::empty(),
    {
        let r = KittyStore { slots: HashMap::new() };
        assert(r@ =~= Map::<(u64, u32), Kitty>::empty());
        r
    }

    /// The kitty `id` of `owner`, or `InvalidKittyId` where there is none.
    pub fn get(&self, owner: u64, id: u32) -> (r: Result<Kitty, Error>)
        ensures
            r == store_get(self@, (owner, id)),
    {
        match self.slots.get(&slot_of(owner, id)) {
            Some(k) => Ok(*k),
            None => Err(Error::InvalidKittyId),
        }
    }

    /// Whether `owner` has a kitty under `id`.
    pub fn contains(&self, owner: u64, id: u32) -> (r: bool)
        ensures
            r == self@.contains_key((owner, id)),
    {
        self.slots.contains_key(&slot_of(owner, id))
    }

    /// Stores `kitty` as the kitty `id` of `owner`; where that key is taken,
    /// fails with `DuplicateKittyId` and changes nothing.
    pub fn insert(&mut self, owner: u64, id: u32, kitty: Kitty) -> (r: Result<(), Error>)
        ensures
            (r, final(self)@) == store_insert(old(self)@, (owner, id), kitty),
    {
        let key = slot_of(owner, id);
        if self.slots.contains_key(&key) {
            return Err(Error::DuplicateKittyId);
        }
        let ghost before = self@;
        self.slots.insert(key, kitty);
        assert forall|k: (u64, u32)| #[trigger] self@.contains_key(k) == before.insert(
            (owner, id),
            kitty,
        ).contains_key(k) by {
            lemma_slot_injective(k.0, k.1, owner, id);
        }
        assert forall|k: (u64, u32)| self@.contains_key(k) implies #[trigger] self@[k] == before.insert(
            (owner, id),
            kitty,
        )[k] by {
            lemma_slot_injective(k.0, k.1, owner, id);
        }
        assert(self@ =~= before.insert((owner, id), kitty));
        Ok(())
    }
}

/// Reading a key that was never written fails with `InvalidKittyId`; after an
/// insert under a free key, reading it returns exactly the kitty inserted; a
/// second insert under the same key fails with `DuplicateKittyId` and leaves
/// the contents as they were.
pub proof fn lemma_store_insert_get(m: Map<(u64, u32), Kitty>, key: (u64, u32), kitty: Kitty, other: Kitty)
    ensures
        !m.contains_key(key) ==> store_get(m, key) == Err::<Kitty, Error>(Error::InvalidKittyId),
        !m.contains_key(key) ==> store_insert(m, key, kitty).0 == Ok::<(), Error>(()),
        !m.contains_key(key) ==> store_get(store_insert(m, key, kitty).1, key) == Ok::<Kitty, Error>(kitty),
        store_insert(store_insert(m, key, kitty).1, key, other) == (
            Err::<(), Error>(Error::DuplicateKittyId),
            store_insert(m, key, kitty).1,
        ),
{
}

} // verus!
