//! A model of what the backend holds for one topic, and of what each
//! command does to it. Only proofs use it.

use vstd::prelude::*;

use crate::command::CommandView;
use crate::fields::Field;
use crate::status::StateSet;

verus! {

/// The five sorted sets (member to score), the metadata hashes by job id,
/// and the ids that were ever added to the completed set.
pub struct Store {
    pub sets: Map<StateSet, Map<Seq<char>, int>>,
    pub hashes: Map<Seq<char>, Map<Field, Seq<char>>>,
    pub ever_completed: Set<Seq<char>>,
}

impl Store {
    /// The members of set `k` with their scores.
    pub open spec fn members(self, k: StateSet) -> Map<Seq<char>, int> {
        if self.sets.contains_key(k) {
            self.sets[k]
        } else {
            Map::empty()
        }
    }

    /// Whether `id` is a member of set `k`.
    pub open spec fn in_set(self, k: StateSet, id: Seq<char>) -> bool {
        self.members(k).contains_key(id)
    }

    /// Whether `id` is a member of any set.
    pub open spec fn in_any_set(self, id: Seq<char>) -> bool {
        exists|k: StateSet| self.in_set(k, id)
    }

    /// The metadata hash of `id`; empty where there is none.
    pub open spec fn hash(self, id: Seq<char>) -> Map<Field, Seq<char>> {
        if self.hashes.contains_key(id) {
            self.hashes[id]
        } else {
            Map::empty()
        }
    }

    /// The store with set `k` replaced by `m`.
    pub open spec fn with_members(self, k: StateSet, m: Map<Seq<char>, int>) -> Store {
        Store { sets: self.sets.insert(k, m), ..self }
    }

    /// The store once `id` was popped from set `k`.
    pub open spec fn pop(self, k: StateSet, id: Seq<char>) -> Store {
        self.with_members(k, self.members(k).remove(id))
    }

    /// Every id is a member of one set at most.
    pub open spec fn single_membership(self) -> bool {
        forall|id: Seq<char>, a: StateSet, b: StateSet|
            #![trigger self.in_set(a, id), self.in_set(b, id)]
            self.in_set(a, id) && self.in_set(b, id) ==> a == b
    }

    /// A hash holds an outcome only for an id that was once in the completed set.
    pub open spec fn outcomes_completed(self) -> bool {
        forall|id: Seq<char>|
            #![trigger self.hashes.contains_key(id)]
            self.hashes.contains_key(id) && self.hashes[id].contains_key(Field::Outcome)
                ==> self.ever_completed.contains(id)
    }
}

/// The members of `m` whose score is above `max`.
pub open spec fn above(m: Map<Seq<char>, int>, max: int) -> Map<Seq<char>, int> {
    m.restrict(Set::new(|id: Seq<char>| m.contains_key(id) && m[id] > max))
}

/// What one command does to the store; reads leave it as it is.
pub open spec fn apply(s: Store, c: CommandView) -> Store {
    match c {
        CommandView::HSet(id, f, v) => Store {
            hashes: s.hashes.insert(id, s.hash(id).insert(f, v)),
            ..s
        },
        CommandView::Del(id) => Store { hashes: s.hashes.remove(id), ..s },
        CommandView::ZAdd(k, id, score) => {
            let t = s.with_members(k, s.members(k).insert(id, score as int));
            if k == StateSet::Completed {
                Store { ever_completed: s.ever_completed.insert(id), ..t }
            } else {
                t
            }
        },
        CommandView::ZRem(k, id) => s.with_members(k, s.members(k).remove(id)),
        CommandView::ZRemRangeByScore(k, max) => s.with_members(k, above(s.members(k), max as int)),
        _ => s,
    }
}

/// What a list of commands, run in order, does to the store.
pub open spec fn apply_all(s: Store, cs: Seq<CommandView>) -> Store
    decreases cs.len(),
{
    if cs.len() == 0 {
        s
    } else {
        apply(apply_all(s, cs.drop_last()), cs.last())
    }
}

} // verus!
