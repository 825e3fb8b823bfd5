use linked_hash_map::LinkedHashMap;
use vstd::prelude::*;

use crate::entries::{entries_insert, entries_lookup, lemma_lookup_insert};

verus! {

/// A workshop mod: its id and its name.
#[derive(Debug)]
pub struct Mod(pub u64, pub String);

impl Clone for Mod {
    fn clone(&self) -> (r: Self)
        ensures
            r@ == self@,
    {
        Mod(self.0, self.1.clone())
    }
}

impl View for Mod {
    type V = (u64, Seq<char>);

    open spec fn view(&self) -> (u64, Seq<char>) {
        (self.0, self.1@)
    }
}

impl Default for Mod {
    fn default() -> (r: Self)
        ensures
            r@ == (0u64, Seq::<char>::empty()),
    {
        Mod(0, String::new())
    }
}

/// What a map from mod id to mod holds: its entries, in insertion order, by their views.
pub uninterp spec fn mod_map_entries(m: LinkedHashMap<u64, Mod>) -> Seq<(u64, (u64, Seq<char>))>;

/// `LinkedHashMap::new`: an empty map.
#[verifier::external_body]
fn mod_map_new() -> (r: LinkedHashMap<u64, Mod>)
    ensures
        mod_map_entries(r) == Seq::<(u64, (u64, Seq<char>))>::empty(),
{
    LinkedHashMap::new()
}

/// `LinkedHashMap::insert`: an entry with the same key is replaced, and the new entry becomes
/// the last one.
#[verifier::external_body]
fn mod_map_insert(m: &mut LinkedHashMap<u64, Mod>, k: u64, v: Mod)
    ensures
        mod_map_entries(*final(m)) == entries_insert(mod_map_entries(*old(m)), k, v@),
{
    m.insert(k, v);
}

/// `LinkedHashMap::get`: the value stored under `k`, if any.
#[verifier::external_body]
fn mod_map_get<'a>(m: &'a LinkedHashMap<u64, Mod>, k: &u64) -> (r: Option<&'a Mod>)
    ensures
        r is Some <==> entries_lookup(mod_map_entries(*m), *k) is Some,
        r matches Some(v) ==> Some(v@) == entries_lookup(mod_map_entries(*m), *k),
{
    m.get(k)
}

/// The map from mod id to mod that inserting `mods` in order gives.
pub open spec fn mods_entries(mods: Seq<(u64, Seq<char>)>) -> Seq<(u64, (u64, Seq<char>))>
    decreases mods.len(),
{
    if mods.len() == 0 {
        Seq::empty()
    } else {
        entries_insert(mods_entries(mods.drop_last()), mods.last().0, mods.last())
    }
}

/// The workshop mods whose data is extracted, by id.
#[derive(Debug)]
pub struct Mods {
    pub mods: LinkedHashMap<u64, Mod>,
}

impl View for Mods {
    type V = Seq<(u64, (u64, Seq<char>))>;

    open spec fn view(&self) -> Seq<(u64, (u64, Seq<char>))> {
        mod_map_entries(self.mods)
    }
}

impl Default for Mods {
    fn default() -> (r: Self)
        ensures
            r@ == Seq::<(u64, (u64, Seq<char>))>::empty(),
    {
        Mods { mods: mod_map_new() }
    }
}

impl Mods {
    /// Collects mods by id; of two mods with the same id the later one is kept.
    pub fn new(mods: Vec<Mod>) -> (r: Self)
        ensures
            r@ == mods_entries(mods@.map_values(|m: Mod| m@)),
    {
        let mut map = mod_map_new();
        let ghost views = mods@.map_values(|m: Mod| m@);
        let mut i: usize = 0;
        while i < mods.len()
            invariant
                i <= mods.len(),
                views == mods@.map_values(|m: Mod| m@),
                mod_map_entries(map) == mods_entries(views.take(i as int)),
            decreases mods.len() - i,
        {
            let m = mods[i].clone();
            assert(views.take(i + 1).drop_last() =~= views.take(i as int));
            mod_map_insert(&mut map, m.0, m);
            i = i + 1;
        }
        assert(views.take(mods.len() as int) =~= views);
        Mods { mods: map }
    }

    /// The mod with the given id, if any.
    pub fn get(&self, id: &u64) -> (r: Option<&Mod>)
        ensures
            r is Some <==> entries_lookup(self@, *id) is Some,
            r matches Some(m) ==> Some(m@) == entries_lookup(self@, *id),
    {
        mod_map_get(&self.mods, id)
    }
}

/// The mod that `Mods::new` keeps for an id is the last one in the list with that id.
pub proof fn lemma_mods_keep_last(mods: Seq<(u64, Seq<char>)>, id: u64)
    ensures
        entries_lookup(mods_entries(mods), id) == last_mod_with_id(mods, id),
    decreases mods.len(),
{
    if mods.len() > 0 {
        lemma_mods_keep_last(mods.drop_last(), id);
        lemma_lookup_insert(mods_entries(mods.drop_last()), mods.last().0, mods.last(), id);
    }
}

/// The last mod in the list with the given id.
pub open spec fn last_mod_with_id(mods: Seq<(u64, Seq<char>)>, id: u64) -> Option<(u64, Seq<char>)>
    decreases mods.len(),
{
    if mods.len() == 0 {
        None
    } else if mods.last().0 == id {
        Some(mods.last())
    } else {
        last_mod_with_id(mods.drop_last(), id)
    }
}

} // verus!
