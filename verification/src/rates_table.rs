//! A table of frame rates by resolution.

use vstd::prelude::*;

use crate::types::Resolution;

verus! {

/// Frame rates by resolution.
pub struct ResolutionRates {
    entries: Vec<(Resolution, Vec<u32>)>,
}

impl View for ResolutionRates {
    type V = Map<Resolution, Seq<u32>>;

    closed spec fn view(&self) -> Map<Resolution, Seq<u32>> {
        Map::new(
            |resolution: Resolution| exists|i: int| self.holds_at(i, resolution),
            |resolution: Resolution|
                self.entries@[choose|i: int| self.holds_at(i, resolution)].1@,
        )
    }
}

impl ResolutionRates {
    spec fn holds_at(self, i: int, resolution: Resolution) -> bool {
        0 <= i < self.entries@.len() && self.entries@[i].0 == resolution
    }

    /// No resolution stands twice.
    #[verifier::type_invariant]
    spec fn distinct(self) -> bool {
        forall|i: int, j: int|
            0 <= i < j < self.entries@.len() ==> #[trigger] self.entries@[i].0
                != #[trigger] self.entries@[j].0
    }

    proof fn lemma_entry(self, i: int)
        requires
            self.distinct(),
            0 <= i < self.entries@.len(),
        ensures
            self@.contains_key(self.entries@[i].0),
            self@[self.entries@[i].0] == self.entries@[i].1@,
    {
        let resolution = self.entries@[i].0;
        assert(self.holds_at(i, resolution));
        let j = choose|j: int| self.holds_at(j, resolution);
        assert(self.holds_at(j, resolution));
        assert(j == i);
    }

    /// A table without entries.
    pub fn new() -> (table: ResolutionRates)
        ensures
            table@ == Map::<Resolution, Seq<u32>>::empty(),
    {
        let table = ResolutionRates { entries: Vec::new() };
        assert(table@ =~= Map::<Resolution, Seq<u32>>::empty()) by {
            assert forall|resolution: Resolution| !table@.contains_key(resolution) by {
                assert(forall|i: int| !table.holds_at(i, resolution));
            }
        }
        table
    }

    /// The place of a resolution, or the number of entries.
    fn position(&self, resolution: Resolution) -> (place: usize)
        ensures
            place <= self.entries@.len(),
            place < self.entries@.len() ==> self.entries@[place as int].0 == resolution,
            place == self.entries@.len() ==> forall|i: int|
                0 <= i < self.entries@.len() ==> (#[trigger] self.entries@[i]).0 != resolution,
    {
        for i in 0..self.entries.len()
            invariant
                forall|j: int| 0 <= j < i ==> (#[trigger] self.entries@[j]).0 != resolution,
        {
            if self.entries[i].0 == resolution {
                return i;
            }
        }
        self.entries.len()
    }

    /// Sets the rates of a resolution, in place of those it had.
    pub fn insert(&mut self, resolution: Resolution, rates: Vec<u32>)
        ensures
            final(self)@ == old(self)@.insert(resolution, rates@),
    {
        proof {
            use_type_invariant(&*self);
        }
        let ghost before = *self;
        let place: usize = self.position(resolution);
        let mut entries: Vec<(Resolution, Vec<u32>)> = Vec::new();
        std::mem::swap(&mut self.entries, &mut entries);
        if place < entries.len() {
            entries.set(place, (resolution, rates));
        } else {
            entries.push((resolution, rates));
        }
        self.entries = entries;
        proof {
            let after = *self;
            assert(after.distinct());
            after.lemma_entry(place as int);
            let expected = before@.insert(resolution, rates@);
            assert forall|other: Resolution| #[trigger]
                after@.contains_key(other) == expected.contains_key(other) && (
                after@.contains_key(other) ==> after@[other] == expected[other]) by {
                if other != resolution && before@.contains_key(other) {
                    let i = choose|i: int| before.holds_at(i, other);
                    assert(before.holds_at(i, other));
                    before.lemma_entry(i);
                    after.lemma_entry(i);
                }
                if other != resolution && after@.contains_key(other) {
                    let i = choose|i: int| after.holds_at(i, other);
                    assert(after.holds_at(i, other));
                    assert(before.holds_at(i, other));
                }
            }
            assert(after@ =~= expected);
        }
    }

    /// The rates of a resolution.
    pub fn get(&self, resolution: Resolution) -> (rates: Option<&Vec<u32>>)
        ensures
            rates is Some <==> self@.contains_key(resolution),
            rates matches Some(found) ==> found@ == self@[resolution],
    {
        proof {
            use_type_invariant(self);
        }
        let place: usize = self.position(resolution);
        if place < self.entries.len() {
            proof {
                self.lemma_entry(place as int);
            }
            Some(&self.entries[place].1)
        } else {
            proof {
                assert(forall|i: int| !self.holds_at(i, resolution));
            }
            None
        }
    }

    /// Every entry, each resolution once, in no particular order.
    pub fn into_entries(self) -> (entries: Vec<(Resolution, Vec<u32>)>)
        ensures
            forall|i: int, j: int|
                0 <= i < j < entries@.len() ==> #[trigger] entries@[i].0 != #[trigger] entries@[j].0,
            forall|i: int|
                0 <= i < entries@.len() ==> self@.contains_key((#[trigger] entries@[i]).0)
                    && self@[entries@[i].0] == entries@[i].1@,
            forall|resolution: Resolution| #[trigger]
                self@.contains_key(resolution) ==> exists|i: int|
                    0 <= i < entries@.len() && (#[trigger] entries@[i]).0 == resolution,
    {
        proof {
            use_type_invariant(&self);
            assert forall|i: int| 0 <= i < self.entries@.len() implies self@.contains_key(
                (#[trigger] self.entries@[i]).0,
            ) && self@[self.entries@[i].0] == self.entries@[i].1@ by {
                self.lemma_entry(i);
            }
            assert forall|resolution: Resolution| #[trigger] self@.contains_key(resolution) implies exists|
                i: int,
            |
                0 <= i < self.entries@.len() && (#[trigger] self.entries@[i]).0 == resolution by {
                let i = choose|i: int| self.holds_at(i, resolution);
                assert(self.entries@[i].0 == resolution);
            }
        }
        self.entries
    }
}

} // verus!
