//! The registry of kitties: each kitty under its identity, none twice.

use crate::types::{same_dna, Dna, Kitty};
use vstd::prelude::*;

verus! {

/// A map from identities to kitties, kept as a vector in which no two
/// kitties share an identity.
pub struct Registry {
    kitties: Vec<Kitty>,
}

/// Whether `kitties` holds a kitty of identity `id` at `i`.
spec fn held_at(kitties: Seq<Kitty>, id: Dna, i: int) -> bool {
    0 <= i < kitties.len() && kitties[i].dna == id
}

/// Whether no two of `kitties` share an identity.
spec fn distinct(kitties: Seq<Kitty>) -> bool {
    forall|i: int, j: int|
        #![trigger kitties[i], kitties[j]]
        0 <= i < j < kitties.len() ==> kitties[i].dna != kitties[j].dna
}

/// The map that `kitties` stands for.
spec fn map_of(kitties: Seq<Kitty>) -> Map<Dna, Kitty> {
    Map::new(
        |id: Dna| exists|i: int| held_at(kitties, id, i),
        |id: Dna| kitties[choose|i: int| held_at(kitties, id, i)],
    )
}

/// Among distinct kitties, the map gives for an identity the one kitty that bears it.
proof fn lemma_map_of_at(kitties: Seq<Kitty>, i: int)
    requires
        distinct(kitties),
        0 <= i < kitties.len(),
    ensures
        map_of(kitties).contains_key(kitties[i].dna),
        map_of(kitties)[kitties[i].dna] == kitties[i],
{
    let id = kitties[i].dna;
    assert(held_at(kitties, id, i));
    let c = choose|c: int| held_at(kitties, id, c);
    assert(held_at(kitties, id, c));
    if c != i {
        if c < i {
            assert(kitties[c].dna != kitties[i].dna);
        } else {
            assert(kitties[i].dna != kitties[c].dna);
        }
    }
}

impl View for Registry {
    type V = Map<Dna, Kitty>;

    closed spec fn view(&self) -> Map<Dna, Kitty> {
        map_of(self.kitties@)
    }
}

impl Registry {
    #[verifier::type_invariant]
    spec fn well_formed(self) -> bool {
        distinct(self.kitties@)
    }

    /// A registry that holds no kitty.
    pub fn new() -> (registry: Registry)
        ensures
            registry@ == Map::<Dna, Kitty>::empty(),
    {
        let registry = Registry { kitties: Vec::new() };
        assert(registry@ =~= Map::empty());
        registry
    }

    /// Where the vector holds the kitty of identity `id`.
    fn find(&self, id: &Dna) -> (at: Option<usize>)
        ensures
            match at {
                Some(i) => held_at(self.kitties@, *id, i as int),
                None => forall|i: int| !held_at(self.kitties@, *id, i),
            },
    {
        let mut i: usize = 0;
        while i < self.kitties.len()
            invariant
                i <= self.kitties@.len(),
                forall|j: int| 0 <= j < i ==> !held_at(self.kitties@, *id, j),
            decreases self.kitties@.len() - i,
        {
            if same_dna(&self.kitties[i].dna, id) {
                return Some(i);
            }
            i += 1;
        }
        None
    }

    /// The kitty stored under `id`, if there is one. It bears that identity.
    pub fn get(&self, id: &Dna) -> (kitty: Option<Kitty>)
        ensures
            kitty is Some <==> self@.contains_key(*id),
            kitty matches Some(k) ==> k == self@[*id] && k.dna == *id,
    {
        proof {
            use_type_invariant(self);
        }
        match self.find(id) {
            Some(i) => {
                proof {
                    lemma_map_of_at(self.kitties@, i as int);
                }
                Some(self.kitties[i])
            },
            None => None,
        }
    }

    /// Stores `kitty` under its identity, in place of the kitty that was
    /// stored under it, if there was one.
    pub fn insert(&mut self, kitty: Kitty)
        ensures
            final(self)@ == old(self)@.insert(kitty.dna, kitty),
    {
        proof {
            use_type_invariant(&*self);
        }
        let ghost before = self.kitties@;
        let at = self.find(&kitty.dna);
        let mut kitties: Vec<Kitty> = Vec::new();
        core::mem::swap(&mut self.kitties, &mut kitties);
        match at {
            Some(i) => {
                kitties.set(i, kitty);
            },
            None => {
                kitties.push(kitty);
            },
        }
        proof {
            let after = kitties@;
            let k = if at is Some { at->Some_0 as int } else { before.len() as int };
            assert(after.len() > k >= 0 && after[k] == kitty);
            assert forall|i: int| 0 <= i < after.len() && i != k implies after[i] == before[i]
                && after[i].dna != kitty.dna by {
                if at is Some {
                    assert(held_at(before, kitty.dna, k));
                    if i < k {
                        assert(before[i].dna != before[k].dna);
                    } else {
                        assert(before[k].dna != before[i].dna);
                    }
                } else {
                    assert(!held_at(before, kitty.dna, i));
                }
            }
            assert(distinct(after)) by {
                assert forall|i: int, j: int| 0 <= i < j < after.len() implies after[i].dna
                    != after[j].dna by {
                    if i != k && j != k {
                        assert(before[i].dna != before[j].dna);
                    }
                }
            }
            assert(map_of(after) =~= map_of(before).insert(kitty.dna, kitty)) by {
                lemma_map_of_at(after, k);
                assert forall|id: Dna| map_of(after).contains_key(id) implies #[trigger] map_of(
                    before,
                ).insert(kitty.dna, kitty).contains_key(id) && map_of(after)[id] == map_of(
                    before,
                ).insert(kitty.dna, kitty)[id] by {
                    let i = choose|i: int| held_at(after, id, i);
                    assert(held_at(after, id, i));
                    if i != k {
                        assert(held_at(before, id, i));
                        lemma_map_of_at(before, i);
                        lemma_map_of_at(after, i);
                    }
                }
                assert forall|id: Dna| #[trigger]
                    map_of(before).insert(kitty.dna, kitty).contains_key(id) implies map_of(
                    after,
                ).contains_key(id) by {
                    if id != kitty.dna {
                        let i = choose|i: int| held_at(before, id, i);
                        assert(held_at(before, id, i));
                        assert(i != k);
                        assert(held_at(after, id, i));
                    }
                }
            }
        }
        self.kitties = kitties;
    }
}

} // verus!
