//! The block counts of a grid: how many of each block it has, and how many thrusters of each
//! block push in each direction.
use vstd::prelude::*;

use crate::entries::{
    entries_insert, entries_keys_distinct, entries_lookup, entries_without, lemma_insert_distinct,
    lemma_without_distinct,
};
use crate::grid::direction::{direction_index, Direction, PerDirection};
use crate::text::text_eq;

verus! {

/// Entries by the views of their keys.
pub open spec fn keyed<V>(v: Seq<(String, V)>) -> Seq<(Seq<char>, V)> {
    v.map_values(|e: (String, V)| (e.0@, e.1))
}

/// The position of the entry of `v` with key `key` that a lookup finds, if any.
fn find_key<V>(v: &Vec<(String, V)>, key: &str) -> (r: Option<usize>)
    ensures
        match entries_lookup(keyed(v@), key@) {
            None => r is None,
            Some(x) => r matches Some(i) && i < v@.len() && v@[i as int].1 == x,
        },
{
    let ghost all = keyed(v@);
    let mut j: usize = v.len();
    assert(all.take(j as int) =~= all);
    while j > 0
        invariant
            all == keyed(v@),
            j <= v@.len(),
            entries_lookup(all, key@) == entries_lookup(all.take(j as int), key@),
        decreases j,
    {
        let ghost part = all.take(j as int);
        assert(part.drop_last() =~= all.take(j - 1));
        assert(part.last() == all[j - 1]);
        if text_eq(v[j - 1].0.as_str(), key) {
            return Some(j - 1);
        }
        j = j - 1;
    }
    assert(all.take(0) =~= Seq::<(Seq<char>, V)>::empty());
    None
}

/// `v` without its entries with key `key`, the others in order.
fn without_key<V>(v: Vec<(String, V)>, key: &str) -> (r: Vec<(String, V)>)
    ensures
        keyed(r@) == entries_without(keyed(v@), key@),
{
    let mut rest = v;
    let ghost all = keyed(rest@);
    let mut kept: Vec<(String, V)> = Vec::new();
    let n = rest.len();
    let mut k: usize = 0;
    while rest.len() > 0
        invariant
            k <= all.len(),
            rest@.len() + k == all.len(),
            all.len() == n,
            keyed(rest@) == all.skip(k as int),
            keyed(kept@) == entries_without(all.take(k as int), key@),
        decreases rest.len(),
    {
        let ghost prev = rest@;
        let ghost prev_kept = kept@;
        let e = rest.remove(0);
        assert(keyed(prev)[0] == all[k as int]);
        assert(all.take(k + 1).drop_last() =~= all.take(k as int));
        assert(all.take(k + 1).last() == all[k as int]);
        assert forall|j: int| 0 <= j < keyed(rest@).len() implies keyed(rest@)[j] == all.skip(k + 1)[j] by {
            assert(rest@[j] == prev[j + 1]);
            assert(keyed(prev)[j + 1] == all.skip(k as int)[j + 1]);
        }
        assert(keyed(rest@) =~= all.skip(k + 1));
        if !text_eq(e.0.as_str(), key) {
            kept.push(e);
            assert(keyed(kept@) =~= keyed(prev_kept).push(all[k as int]));
        }
        assert(keyed(kept@) =~= entries_without(all.take(k + 1), key@));
        k = k + 1;
    }
    assert(all.take(k as int) =~= all);
    kept
}

/// The count of `id` in `counts`: zero for a block that has no entry.
pub open spec fn count_in(counts: Seq<(Seq<char>, u64)>, id: Seq<char>) -> u64 {
    match entries_lookup(counts, id) {
        Some(c) => c,
        None => 0,
    }
}

/// How many of each block a grid has, by block id; no id occurs twice.
#[derive(Debug)]
pub struct BlockCounts {
    entries: Vec<(String, u64)>,
}

impl BlockCounts {
    /// No id occurs twice.
    #[verifier::type_invariant]
    closed spec fn ids_distinct(self) -> bool {
        entries_keys_distinct(keyed(self.entries@))
    }
}

impl View for BlockCounts {
    type V = Seq<(Seq<char>, u64)>;

    /// The counts by block id, in the order in which they were last set.
    closed spec fn view(&self) -> Seq<(Seq<char>, u64)> {
        keyed(self.entries@)
    }
}

impl BlockCounts {
    /// No counts.
    pub fn new() -> (r: Self)
        ensures
            r@ == Seq::<(Seq<char>, u64)>::empty(),
    {
        let r = BlockCounts { entries: Vec::new() };
        assert(r@ =~= Seq::<(Seq<char>, u64)>::empty());
        r
    }

    /// The count of `id`; zero where it has none.
    pub fn get(&self, id: &str) -> (r: u64)
        ensures
            r == count_in(self@, id@),
    {
        match find_key(&self.entries, id) {
            Some(i) => self.entries[i].1,
            None => 0,
        }
    }

    /// Sets the count of `id` to `count`.
    pub fn set(&mut self, id: String, count: u64)
        ensures
            final(self)@ == entries_insert(old(self)@, id@, count),
    {
        proof {
            use_type_invariant(&*self);
            lemma_insert_distinct(self@, id@, count);
        }
        let mut entries: Vec<(String, u64)> = Vec::new();
        std::mem::swap(&mut entries, &mut self.entries);
        let mut kept = without_key(entries, id.as_str());
        let ghost before = keyed(kept@);
        kept.push((id, count));
        assert(keyed(kept@) =~= before.push((id@, count)));
        self.entries = kept;
    }

    /// The ids and their counts, in the order in which they were last set; no id occurs twice.
    pub fn iter(&self) -> (r: Vec<(&String, u64)>)
        ensures
            r@.len() == self@.len(),
            forall|i: int| 0 <= i < r@.len() ==> (#[trigger] r@[i]).0@ == self@[i].0 && r@[i].1 == self@[i].1,
            entries_keys_distinct(self@),
    {
        proof {
            use_type_invariant(self);
        }
        let mut r: Vec<(&String, u64)> = Vec::new();
        let mut i: usize = 0;
        while i < self.entries.len()
            invariant
                i <= self.entries@.len(),
                r@.len() == i,
                forall|j: int| 0 <= j < i ==> (#[trigger] r@[j]).0@ == self@[j].0 && r@[j].1 == self@[j].1,
            decreases self.entries.len() - i,
        {
            r.push((&self.entries[i].0, self.entries[i].1));
            i = i + 1;
        }
        r
    }
}

impl Clone for BlockCounts {
    fn clone(&self) -> (r: Self)
        ensures
            r@ == self@,
    {
        proof {
            use_type_invariant(self);
        }
        let mut entries: Vec<(String, u64)> = Vec::new();
        let mut i: usize = 0;
        while i < self.entries.len()
            invariant
                i <= self.entries@.len(),
                keyed(entries@) == keyed(self.entries@).take(i as int),
            decreases self.entries.len() - i,
        {
            let ghost before = keyed(entries@);
            entries.push((self.entries[i].0.clone(), self.entries[i].1));
            assert(keyed(entries@) =~= before.push(keyed(self.entries@)[i as int]));
            assert(keyed(self.entries@).take(i + 1) =~= keyed(self.entries@).take(i as int).push(
                keyed(self.entries@)[i as int],
            ));
            i = i + 1;
        }
        assert(keyed(self.entries@).take(i as int) =~= keyed(self.entries@));
        BlockCounts { entries }
    }
}

/// The per-direction counts of `id` in `counts`: zero in every direction for a block that has no
/// entry.
pub open spec fn directional_count_in(counts: Seq<(Seq<char>, PerDirection<u64>)>, id: Seq<char>) -> Seq<u64> {
    match entries_lookup(counts, id) {
        Some(p) => p@,
        None => Seq::new(6, |_i: int| 0u64),
    }
}

/// How many thrusters of each block push in each direction, by block id; no id occurs twice.
#[derive(Debug)]
pub struct DirectionalBlockCounts {
    entries: Vec<(String, PerDirection<u64>)>,
}

impl DirectionalBlockCounts {
    /// No id occurs twice.
    #[verifier::type_invariant]
    closed spec fn ids_distinct(self) -> bool {
        entries_keys_distinct(keyed(self.entries@))
    }
}

impl View for DirectionalBlockCounts {
    type V = Seq<(Seq<char>, PerDirection<u64>)>;

    /// The counts by block id, in the order in which they were last set.
    closed spec fn view(&self) -> Seq<(Seq<char>, PerDirection<u64>)> {
        keyed(self.entries@)
    }
}

impl DirectionalBlockCounts {
    /// No counts.
    pub fn new() -> (r: Self)
        ensures
            r@ == Seq::<(Seq<char>, PerDirection<u64>)>::empty(),
    {
        let r = DirectionalBlockCounts { entries: Vec::new() };
        assert(r@ =~= Seq::<(Seq<char>, PerDirection<u64>)>::empty());
        r
    }

    /// The counts of `id` per direction; zero where it has none.
    pub fn get(&self, id: &str) -> (r: PerDirection<u64>)
        ensures
            r@ == directional_count_in(self@, id@),
    {
        match find_key(&self.entries, id) {
            Some(i) => PerDirection::new(self.entries[i].1.0),
            None => PerDirection::splat(0),
        }
    }

    /// Sets the count of `id` in `direction` to `count`; its other directions keep their
    /// counts (zero where it had none).
    pub fn set(&mut self, id: String, direction: Direction, count: u64)
        ensures
            final(self)@.len() > 0,
            final(self)@ == entries_insert(old(self)@, id@, final(self)@.last().1),
            final(self)@.last().1@ == directional_count_in(old(self)@, id@).update(
                direction_index(direction),
                count,
            ),
    {
        let mut counts = self.get(id.as_str());
        *counts.get_mut(direction) = count;
        proof {
            use_type_invariant(&*self);
            lemma_insert_distinct(self@, id@, counts);
        }
        let mut entries: Vec<(String, PerDirection<u64>)> = Vec::new();
        std::mem::swap(&mut entries, &mut self.entries);
        let mut kept = without_key(entries, id.as_str());
        let ghost before = keyed(kept@);
        let ghost key = id@;
        kept.push((id, counts));
        assert(keyed(kept@) =~= before.push((key, counts)));
        self.entries = kept;
    }

    /// The ids and their counts per direction, in the order in which they were last set; no id
    /// occurs twice.
    pub fn iter(&self) -> (r: Vec<(&String, &PerDirection<u64>)>)
        ensures
            r@.len() == self@.len(),
            forall|i: int|
                0 <= i < r@.len() ==> (#[trigger] r@[i]).0@ == self@[i].0 && *r@[i].1 == self@[i].1,
            entries_keys_distinct(self@),
    {
        proof {
            use_type_invariant(self);
        }
        let mut r: Vec<(&String, &PerDirection<u64>)> = Vec::new();
        let mut i: usize = 0;
        while i < self.entries.len()
            invariant
                i <= self.entries@.len(),
                r@.len() == i,
                forall|j: int| 0 <= j < i ==> (#[trigger] r@[j]).0@ == self@[j].0 && *r@[j].1 == self@[j].1,
            decreases self.entries.len() - i,
        {
            r.push((&self.entries[i].0, &self.entries[i].1));
            i = i + 1;
        }
        r
    }
}

impl Clone for DirectionalBlockCounts {
    fn clone(&self) -> (r: Self)
        ensures
            r@ == self@,
    {
        proof {
            use_type_invariant(self);
        }
        let mut entries: Vec<(String, PerDirection<u64>)> = Vec::new();
        let mut i: usize = 0;
        while i < self.entries.len()
            invariant
                i <= self.entries@.len(),
                keyed(entries@) == keyed(self.entries@).take(i as int),
            decreases self.entries.len() - i,
        {
            let ghost before = keyed(entries@);
            let counts = PerDirection(self.entries[i].1.0);
            assert(counts == self.entries@[i as int].1);
            entries.push((self.entries[i].0.clone(), counts));
            assert(keyed(entries@) =~= before.push(keyed(self.entries@)[i as int]));
            assert(keyed(self.entries@).take(i + 1) =~= keyed(self.entries@).take(i as int).push(
                keyed(self.entries@)[i as int],
            ));
            i = i + 1;
        }
        assert(keyed(self.entries@).take(i as int) =~= keyed(self.entries@));
        DirectionalBlockCounts { entries }
    }
}

/// What a grid calculator holds: its options (`O`), the count of each block, and the count of
/// each thruster block per direction.
#[derive(Debug)]
pub struct GridInput<O> {
    pub options: O,
    pub blocks: BlockCounts,
    pub directional_blocks: DirectionalBlockCounts,
}

impl<O> GridInput<O> {
    /// A grid with the given options and no blocks.
    pub fn new(options: O) -> (r: Self)
        ensures
            r.options == options,
            r.blocks@ == Seq::<(Seq<char>, u64)>::empty(),
            r.directional_blocks@ == Seq::<(Seq<char>, PerDirection<u64>)>::empty(),
    {
        GridInput { options, blocks: BlockCounts::new(), directional_blocks: DirectionalBlockCounts::new() }
    }
}

impl<O: Clone> Clone for GridInput<O> {
    fn clone(&self) -> (r: Self)
        ensures
            cloned(self.options, r.options),
            r.blocks@ == self.blocks@,
            r.directional_blocks@ == self.directional_blocks@,
    {
        GridInput {
            options: self.options.clone(),
            blocks: self.blocks.clone(),
            directional_blocks: self.directional_blocks.clone(),
        }
    }
}

} // verus!
