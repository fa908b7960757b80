use vstd::prelude::*;

use crate::game::ref_view;
use crate::state::{GameState, GameView};

verus! {

/// What the registry holds under `key`, if anything.
pub open spec fn lookup(m: Map<Seq<char>, GameView>, key: Seq<char>) -> Option<GameView> {
    if m.contains_key(key) {
        Some(m[key])
    } else {
        None
    }
}

/// The match records, one per host identity.
pub struct Registry {
    records: Vec<GameState>,
    contents: Ghost<Map<Seq<char>, GameView>>,
}

impl View for Registry {
    type V = Map<Seq<char>, GameView>;

    closed spec fn view(&self) -> Map<Seq<char>, GameView> {
        self.contents@
    }
}

impl Registry {
    /// Hosts are distinct, and the records are exactly the map's entries.
    pub closed spec fn wf(&self) -> bool {
        &&& forall|i: int, j: int|
            0 <= i < j < self.records.len() ==> self.records[i].host@ != self.records[j].host@
        &&& forall|i: int|
            0 <= i < self.records.len() ==> #[trigger] self.contents@.contains_key(
                self.records[i].host@,
            ) && self.contents@[self.records[i].host@] == self.records[i]@
        &&& forall|k: Seq<char>| #[trigger]
            self.contents@.contains_key(k) ==> exists|i: int|
                0 <= i < self.records.len() && self.records[i].host@ == k
    }

    /// An empty registry.
    pub fn new() -> (r: Registry)
        ensures
            r.wf(),
            r@ == Map::<Seq<char>, GameView>::empty(),
    {
        Registry { records: Vec::new(), contents: Ghost(Map::empty()) }
    }

    /// The position of the record under `key`.
    fn find(&self, key: &String) -> (r: Option<usize>)
        requires
            self.wf(),
        ensures
            match r {
                Some(i) => i < self.records.len() && self.records[i as int].host@ == key@,
                None => !self@.contains_key(key@),
            },
    {
        let mut i: usize = 0;
        while i < self.records.len()
            invariant
                self.wf(),
                i <= self.records.len(),
                forall|j: int| 0 <= j < i ==> self.records[j].host@ != key@,
            decreases self.records.len() - i,
        {
            if self.records[i].host == *key {
                return Some(i);
            }
            i = i + 1;
        }
        None
    }

    /// The record stored under `key`.
    pub fn load(&self, key: &String) -> (r: Option<&GameState>)
        requires
            self.wf(),
        ensures
            ref_view(r) == lookup(self@, key@),
    {
        match self.find(key) {
            Some(i) => Some(&self.records[i]),
            None => None,
        }
    }

    /// Stores `state` under its host, replacing what was there.
    pub fn save(&mut self, state: GameState)
        requires
            old(self).wf(),
        ensures
            final(self).wf(),
            final(self)@ == old(self)@.insert(state.host@, state@),
    {
        let key = state.host.clone();
        let ghost new_contents = self.contents@.insert(state.host@, state@);
        let ghost at: int;
        match self.find(&key) {
            Some(i) => {
                self.records.set(i, state);
                proof {
                    at = i as int;
                }
            },
            None => {
                self.records.push(state);
                proof {
                    at = self.records.len() - 1;
                }
            },
        }
        self.contents = Ghost(new_contents);
        assert(self.records[at].host@ == key@);
        assert forall|k: Seq<char>| #[trigger] self.contents@.contains_key(k) implies exists|i: int|
            0 <= i < self.records.len() && self.records[i].host@ == k by {
            if k != key@ {
                let j = choose|j: int|
                    0 <= j < old(self).records.len() && old(self).records[j].host@ == k;
                assert(self.records[j].host@ == k);
            }
        }
    }
}

} // verus!
