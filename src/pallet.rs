use vstd::prelude::*;

use crate::allocator::reserve_next_id;
use crate::dna::{dna_of, generate_dna};
use crate::error::Error;
use crate::genome::{combine, combined, gender_of, Kitty};
use crate::store::KittyStore;

verus! {

/// What the surrounding runtime hands a transition: a fresh random seed and
/// the index of the transition within its block.
pub trait Config {
    /// Unpredictable bytes, fresh for this transition.
    fn random_seed(&self) -> [u8; 32];

    /// The index of the current transition within its block, if it has one.
    fn extrinsic_index(&self) -> Option<u32>;
}

/// A notification of a new kitty: its owner, its id and the kitty.
#[derive(Clone, Copy, Debug, PartialEq, Eq)]
pub enum Event {
    KittyCreated(u64, u32, Kitty),
    KittyBred(u64, u32, Kitty),
}

/// The whole state: the id counter, the kitties by owner and id, and the
/// notifications emitted so far.
pub struct Pallet {
    next_kitty_id: u32,
    kitties: KittyStore,
    events: Vec<Event>,
}

/// The notification for a new kitty, by how it came about.
pub open spec fn event_for(bred: bool, who: u64, id: u32, kitty: Kitty) -> Event {
    if bred {
        Event::KittyBred(who, id, kitty)
    } else {
        Event::KittyCreated(who, id, kitty)
    }
}

impl Pallet {
    /// The id that the next new kitty gets.
    pub closed spec fn next_id(&self) -> u32 {
        self.next_kitty_id
    }

    /// The kitties, by (owner, id).
    pub closed spec fn stored(&self) -> Map<(u64, u32), Kitty> {
        self.kitties@
    }

    /// The notifications emitted so far, oldest first.
    pub closed spec fn emitted(&self) -> Seq<Event> {
        self.events@
    }

    /// Every stored kitty has an id below the counter.
    pub open spec fn wf(&self) -> bool {
        forall|k: (u64, u32)| #[trigger] self.stored().contains_key(k) ==> k.1 < self.next_id()
    }

    /// `post` is `pre` with one new kitty of genome `dna` for `who` under the
    /// id that the counter held, the counter one further on, and the
    /// matching notification emitted.
    pub open spec fn added(pre: &Pallet, post: &Pallet, who: u64, dna: Seq<u8>, bred: bool) -> bool {
        let id = pre.next_id();
        let key = (who, id);
        &&& post.next_id() == id + 1
        &&& !pre.stored().contains_key(key)
        &&& post.stored().contains_key(key)
        &&& post.stored()[key]@ == dna
        &&& post.stored() == pre.stored().insert(key, post.stored()[key])
        &&& post.emitted() == pre.emitted().push(event_for(bred, who, id, post.stored()[key]))
    }

    /// Whether `who` may breed kitties `id1` and `id2` now: both must be
    /// theirs, of different genders, and an id must be left.
    pub open spec fn breed_check(&self, who: u64, id1: u32, id2: u32) -> Result<(), Error> {
        if !self.stored().contains_key((who, id1)) || !self.stored().contains_key((who, id2)) {
            Err(Error::InvalidKittyId)
        } else if gender_of(self.stored()[(who, id1)]@) == gender_of(self.stored()[(who, id2)]@) {
            Err(Error::SameGender)
        } else if self.next_id() == u32::MAX {
            Err(Error::Overflow)
        } else {
            Ok(())
        }
    }

    /// The genome that breeding kitties `id1` and `id2` of `who` gives under
    /// the given selector.
    pub open spec fn child_dna(&self, who: u64, id1: u32, id2: u32, selector: Seq<u8>) -> Seq<u8> {
        combined(self.stored()[(who, id1)]@, self.stored()[(who, id2)]@, selector)
    }

    /// An empty state: no kitty, the counter at zero, no notification.
    pub fn new() -> (r: Pallet)
        ensures
            r.wf(),
            r.next_id() == 0,
            r.stored() == Map::<(u64, u32), Kitty>::empty(),
            r.emitted() == Seq::<Event>::empty(),
    {
        Pallet { next_kitty_id: 0, kitties: KittyStore::new(), events: Vec::new() }
    }

    /// Stores `kitty` for `who` under the next id and emits its notification.
    fn add_kitty(&mut self, who: u64, kitty: Kitty, bred: bool) -> (r: Result<(), Error>)
        requires
            old(self).wf(),
        ensures
            final(self).wf(),
            r == (if old(self).next_id() < u32::MAX {
                Ok(())
            } else {
                Err(Error::Overflow)
            }),
            r is Err ==> *final(self) == *old(self),
            r is Ok ==> Pallet::added(old(self), final(self), who, kitty@, bred),
            r is Ok ==> final(self).stored()[(who, old(self).next_id())] == kitty,
    {
        let mut next: u32 = self.next_kitty_id;
        let id = match reserve_next_id(&mut next) {
            Ok(id) => id,
            Err(e) => return Err(e),
        };
        assert(!self.stored().contains_key((who, id)));
        let ghost before = self.stored();
        match self.kitties.insert(who, id, kitty) {
            Ok(()) => {},
            Err(e) => return Err(e),
        }
        self.next_kitty_id = next;
        assert forall|k: (u64, u32)| #[trigger] self.stored().contains_key(k) implies k.1
            < self.next_id() by {
            if k != (who, id) {
                assert(before.contains_key(k));
            }
        }
        let ev = if bred {
            Event::KittyBred(who, id, kitty)
        } else {
            Event::KittyCreated(who, id, kitty)
        };
        self.events.push(ev);
        Ok(())
    }

    /// Mints a kitty for `who` whose genome is derived from `seed` and
    /// `index`. Fails with `Overflow`, changing nothing, where no id is left.
    pub fn create_from_seed(&mut self, who: u64, seed: &[u8; 32], index: Option<u32>) -> (r: Result<
        (),
        Error,
    >)
        requires
            old(self).wf(),
        ensures
            final(self).wf(),
            r == (if old(self).next_id() < u32::MAX {
                Ok(())
            } else {
                Err(Error::Overflow)
            }),
            r is Err ==> *final(self) == *old(self),
            r is Ok ==> Pallet::added(old(self), final(self), who, dna_of(seed@, who, index), false),
    {
        if self.next_kitty_id == u32::MAX {
            return Err(Error::Overflow);
        }
        let dna = generate_dna(seed, who, index);
        self.add_kitty(who, Kitty(dna), false)
    }

    /// Mints a kitty for `who` from the seed and index that `rt` supplies.
    pub fn create<C: Config>(&mut self, rt: &C, who: u64) -> (r: Result<(), Error>)
        requires
            old(self).wf(),
        ensures
            final(self).wf(),
            r == (if old(self).next_id() < u32::MAX {
                Ok(())
            } else {
                Err(Error::Overflow)
            }),
            r is Err ==> *final(self) == *old(self),
            r is Ok ==> exists|seed: Seq<u8>, index: Option<u32>|
                seed.len() == 32 && Pallet::added(
                    old(self),
                    final(self),
                    who,
                    dna_of(seed, who, index),
                    false,
                ),
    {
        if self.next_kitty_id == u32::MAX {
            return Err(Error::Overflow);
        }
        let seed = rt.random_seed();
        let index = rt.extrinsic_index();
        let r = self.create_from_seed(who, &seed, index);
        assert(seed@.len() == 32);
        r
    }

    /// Checks that `who` may breed kitties `id1` and `id2` and returns them.
    fn parents(&self, who: u64, id1: u32, id2: u32) -> (r: Result<(Kitty, Kitty), Error>)
        ensures
            r is Err ==> r == Err::<(Kitty, Kitty), Error>(self.breed_check(who, id1, id2)->Err_0),
            r is Err <==> self.breed_check(who, id1, id2) is Err,
            r is Ok ==> r->Ok_0.0 == self.stored()[(who, id1)] && r->Ok_0.1 == self.stored()[(
                who,
                id2,
            )],
    {
        let kitty1 = match self.kitties.get(who, id1) {
            Ok(k) => k,
            Err(e) => return Err(e),
        };
        let kitty2 = match self.kitties.get(who, id2) {
            Ok(k) => k,
            Err(e) => return Err(e),
        };
        if kitty1.gender() == kitty2.gender() {
            return Err(Error::SameGender);
        }
        if self.next_kitty_id == u32::MAX {
            return Err(Error::Overflow);
        }
        Ok((kitty1, kitty2))
    }

    /// Breeds kitties `id1` and `id2` of `who` into a new kitty of `who`,
    /// each bit of its genome taken from the first parent where the selector
    /// derived from `seed` and `index` has it set, else from the second.
    /// Fails, changing nothing, where `breed_check` says no.
    pub fn breed_from_seed(
        &mut self,
        who: u64,
        id1: u32,
        id2: u32,
        seed: &[u8; 32],
        index: Option<u32>,
    ) -> (r: Result<(), Error>)
        requires
            old(self).wf(),
        ensures
            final(self).wf(),
            r == old(self).breed_check(who, id1, id2),
            r is Err ==> *final(self) == *old(self),
            r is Ok ==> Pallet::added(
                old(self),
                final(self),
                who,
                old(self).child_dna(who, id1, id2, dna_of(seed@, who, index)),
                true,
            ),
    {
        let (kitty1, kitty2) = match self.parents(who, id1, id2) {
            Ok(p) => p,
            Err(e) => return Err(e),
        };
        let selector = generate_dna(seed, who, index);
        let child = combine(&kitty1.0, &kitty2.0, &selector);
        self.add_kitty(who, Kitty(child), true)
    }

    /// Breeds kitties `id1` and `id2` of `who` with a selector derived from
    /// the seed and index that `rt` supplies. Both parents are checked before
    /// anything is drawn from `rt`.
    pub fn breed<C: Config>(&mut self, rt: &C, who: u64, id1: u32, id2: u32) -> (r: Result<
        (),
        Error,
    >)
        requires
            old(self).wf(),
        ensures
            final(self).wf(),
            r == old(self).breed_check(who, id1, id2),
            r is Err ==> *final(self) == *old(self),
            r is Ok ==> exists|seed: Seq<u8>, index: Option<u32>|
                seed.len() == 32 && Pallet::added(
                    old(self),
                    final(self),
                    who,
                    old(self).child_dna(who, id1, id2, dna_of(seed, who, index)),
                    true,
                ),
    {
        match self.parents(who, id1, id2) {
            Ok(_) => {},
            Err(e) => return Err(e),
        }
        let seed = rt.random_seed();
        let index = rt.extrinsic_index();
        let r = self.breed_from_seed(who, id1, id2, &seed, index);
        assert(seed@.len() == 32);
        r
    }

    /// The kitty `id` of `owner`, if there is one.
    pub fn kitties(&self, owner: u64, id: u32) -> (r: Option<Kitty>)
        ensures
            r == (if self.stored().contains_key((owner, id)) {
                Some(self.stored()[(owner, id)])
            } else {
                None
            }),
    {
        match self.kitties.get(owner, id) {
            Ok(k) => Some(k),
            Err(_) => None,
        }
    }

    /// The id that the next new kitty gets.
    pub fn next_kitty_id(&self) -> (r: u32)
        ensures
            r == self.next_id(),
    {
        self.next_kitty_id
    }

    /// The notifications emitted so far, oldest first.
    pub fn events(&self) -> (r: &Vec<Event>)
        ensures
            r@ == self.emitted(),
    {
        &self.events
    }
}

} // verus!
