//! A storage backend that keeps the entities in memory.
use vstd::prelude::*;

use crate::error::StorageError;
use crate::pokemon::{views_of, Pokemon, PokemonView};
use crate::pokemon_number::PokemonNumber;
use crate::repository::{is_listing, PokemonRepository};

verus! {

/// The entities that a table of slots holds: slot `k`, when filled, holds the
/// entity stored under `k`.
pub open spec fn table_of(slots: Seq<Option<Pokemon>>) -> Map<int, PokemonView> {
    Map::new(
        |k: int| 0 <= k < slots.len() && slots[k] is Some,
        |k: int| slots[k]->Some_0@,
    )
}

/// Each filled slot holds the entity whose number is the slot's index.
pub open spec fn slots_keyed(slots: Seq<Option<Pokemon>>) -> bool {
    forall|k: int|
        0 <= k < slots.len() && (#[trigger] slots[k]) is Some ==> slots[k]->Some_0@.number == k
}

/// Entities held in a table indexed by number.
pub struct InMemoryPokemonRepository {
    slots: Vec<Option<Pokemon>>,
}

/// Appends empty slots until slot `k` exists; the entities held stay.
fn reserve_slot(slots: &mut Vec<Option<Pokemon>>, k: usize)
    requires
        slots_keyed(old(slots)@),
    ensures
        k < final(slots)@.len(),
        slots_keyed(final(slots)@),
        table_of(final(slots)@) == table_of(old(slots)@),
{
    while slots.len() <= k
        invariant
            slots_keyed(slots@),
            table_of(slots@) == table_of(old(slots)@),
        decreases k + 1 - slots@.len(),
    {
        slots.push(None);
        assert(table_of(slots@) =~= table_of(old(slots)@));
    }
}

impl InMemoryPokemonRepository {
    #[verifier::type_invariant]
    spec fn inv(self) -> bool {
        slots_keyed(self.slots@)
    }

    /// An empty store.
    pub fn new() -> (r: Self)
        ensures
            r.stored() == Map::<int, PokemonView>::empty(),
    {
        let r = InMemoryPokemonRepository { slots: Vec::new() };
        assert(r.stored() =~= Map::<int, PokemonView>::empty());
        r
    }

    /// Takes the table out, leaving an empty one in its place.
    fn take_slots(&mut self) -> (r: Vec<Option<Pokemon>>)
        ensures
            r@ == old(self).slots@,
            slots_keyed(r@),
    {
        proof {
            use_type_invariant(&*self);
        }
        let mut slots: Vec<Option<Pokemon>> = Vec::new();
        std::mem::swap(&mut slots, &mut self.slots);
        slots
    }
}

impl PokemonRepository for InMemoryPokemonRepository {
    closed spec fn stored(&self) -> Map<int, PokemonView> {
        table_of(self.slots@)
    }

    fn find_by_number(&self, number: &PokemonNumber) -> (r: Option<Pokemon>) {
        let k = number.value() as usize;
        if k < self.slots.len() {
            match &self.slots[k] {
                Some(p) => Some(p.clone()),
                None => None,
            }
        } else {
            None
        }
    }

    fn list(&self) -> (r: Vec<Pokemon>) {
        proof {
            use_type_invariant(self);
        }
        let ghost m = self.stored();
        let mut out: Vec<Pokemon> = Vec::new();
        let mut i: usize = 0;
        while i < self.slots.len()
            invariant
                m == table_of(self.slots@),
                slots_keyed(self.slots@),
                i <= self.slots@.len(),
                forall|j: int|
                    0 <= j < out@.len() ==> {
                        let n = (#[trigger] out@[j])@.number;
                        &&& 0 <= n < i
                        &&& m.contains_key(n)
                        &&& m[n] == out@[j]@
                    },
                forall|k: int|
                    0 <= k < i && #[trigger] m.contains_key(k) ==> exists|j: int|
                        0 <= j < out@.len() && out@[j]@.number == k,
                forall|a: int, b: int|
                    0 <= a < b < out@.len() ==> (#[trigger] out@[a])@.number < (#[trigger] out@[b])@.number,
            decreases self.slots@.len() - i,
        {
            let ghost before = out@;
            match &self.slots[i] {
                Some(p) => {
                    out.push(p.clone());
                    assert(out@[out@.len() - 1]@.number == i);
                },
                None => {},
            }
            proof {
                assert forall|k: int| 0 <= k <= i && #[trigger] m.contains_key(k) implies exists|j: int|
                    0 <= j < out@.len() && out@[j]@.number == k by {
                    if k < i {
                        let j = choose|j: int| 0 <= j < before.len() && before[j]@.number == k;
                        assert(out@[j] == before[j]);
                    } else {
                        assert(out@[out@.len() - 1]@.number == k);
                    }
                }
            }
            i += 1;
        }
        proof {
            let vs = views_of(out@);
            assert forall|k: int| #[trigger] m.contains_key(k) implies exists|j: int|
                0 <= j < vs.len() && vs[j].number == k by {
                let j = choose|j: int| 0 <= j < out@.len() && out@[j]@.number == k;
                assert(vs[j] == out@[j]@);
            }
        }
        out
    }

    fn insert(&mut self, pokemon: &Pokemon) -> (r: Result<(), StorageError>) {
        let k = pokemon.number.value() as usize;
        let mut slots = self.take_slots();
        reserve_slot(&mut slots, k);
        if slots[k].is_some() {
            self.slots = slots;
            return Err(StorageError::Duplicate);
        }
        slots.set(k, Some(pokemon.clone()));
        assert(table_of(slots@) =~= old(self).stored().insert(pokemon@.number, pokemon@));
        self.slots = slots;
        Ok(())
    }

    fn update(&mut self, pokemon: &Pokemon) -> (r: Result<(), StorageError>) {
        let k = pokemon.number.value() as usize;
        if k >= self.slots.len() || self.slots[k].is_none() {
            return Err(StorageError::Missing);
        }
        let mut slots = self.take_slots();
        slots.set(k, Some(pokemon.clone()));
        assert(table_of(slots@) =~= old(self).stored().insert(pokemon@.number, pokemon@));
        self.slots = slots;
        Ok(())
    }

    fn delete(&mut self, number: &PokemonNumber) -> (r: Result<(), StorageError>) {
        let k = number.value() as usize;
        let mut slots = self.take_slots();
        if k < slots.len() {
            slots.set(k, None);
        }
        assert(table_of(slots@) =~= old(self).stored().remove(number@));
        self.slots = slots;
        Ok(())
    }
}

} // verus!
