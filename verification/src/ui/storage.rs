use vstd::prelude::*;

use crate::entries::{
    entries_insert, entries_keys, entries_keys_distinct, entries_lookup, entries_without,
    lemma_insert_distinct, lemma_lookup_insert, lemma_lookup_some_iff_key, lemma_without_distinct,
};
use crate::text::{join_texts, text_eq};

verus! {

/// The state of the calculator application that outlives a session: the current calculator, the
/// name it was last saved or loaded under, whether it changed since, and the saved calculators
/// by name in the order in which they were (last) saved.
#[derive(Debug)]
pub struct Storage<C> {
    pub calculator: C,
    pub calculator_name: Option<String>,
    pub calculator_modified: bool,
    pub saved_calculators: SavedCalculators<C>,
}

/// The saved calculators with their names, in the order in which they were (last) saved; only
/// the operations of a storage change them, so no name occurs twice.
#[derive(Debug)]
pub struct SavedCalculators<C> {
    entries: Vec<(String, C)>,
}

impl<C> SavedCalculators<C> {
    /// No name occurs twice.
    #[verifier::type_invariant]
    closed spec fn names_distinct(self) -> bool {
        entries_keys_distinct(saved_model(self.entries@))
    }
}

impl<C> View for SavedCalculators<C> {
    type V = Seq<(Seq<char>, C)>;

    closed spec fn view(&self) -> Seq<(Seq<char>, C)> {
        saved_model(self.entries@)
    }
}

/// Loading failed: no calculator is saved under this name.
#[derive(Debug)]
pub struct NoSavedCalculator(pub String);

impl NoSavedCalculator {
    /// The message that describes this error.
    pub fn message(&self) -> (r: String)
        ensures
            r@ == "No saved calculator with name '"@ + self.0@ + "' was found"@,
    {
        let head = join_texts("No saved calculator with name '", self.0.as_str());
        join_texts(head.as_str(), "' was found")
    }
}

/// Why the local storage of a web browser could not be reached.
#[derive(Debug)]
pub enum GetLocalStorageError {
    NoWindow,
    NoLocalStorage,
    LocalStorageError(String),
}

impl GetLocalStorageError {
    /// The message that describes this error.
    pub fn message(&self) -> (r: &'static str)
        ensures
            r@ == (match self {
                GetLocalStorageError::NoWindow => "Could not get local storage; cannot get window"@,
                GetLocalStorageError::NoLocalStorage => "Could not get local storage; window returned no storage"@,
                GetLocalStorageError::LocalStorageError(_) => "Cannot get local storage; an error occurred"@,
            }),
    {
        match self {
            GetLocalStorageError::NoWindow => "Could not get local storage; cannot get window",
            GetLocalStorageError::NoLocalStorage => "Could not get local storage; window returned no storage",
            GetLocalStorageError::LocalStorageError(_) => "Cannot get local storage; an error occurred",
        }
    }
}

/// `new` is `old` after saving its calculator under `name`: a calculator saved under the same name
/// is replaced, a clone of the current calculator becomes the last saved one, and the current
/// calculator is named `name` and unmodified.
pub open spec fn storage_saved<C: Clone>(old: Storage<C>, new: Storage<C>, name: Seq<char>) -> bool {
    &&& new.saved().len() > 0
    &&& new.saved() == entries_insert(old.saved(), name, new.saved().last().1)
    &&& cloned(old.calculator, new.saved().last().1)
    &&& new.calculator == old.calculator
    &&& new.calculator_name matches Some(n) && n@ == name
    &&& !new.calculator_modified
}

/// `new` is `old` after loading the calculator saved under `name`, which exists: the current
/// calculator is a clone of it, named `name` and unmodified.
pub open spec fn storage_loaded<C: Clone>(old: Storage<C>, new: Storage<C>, name: Seq<char>) -> bool {
    &&& entries_lookup(old.saved(), name) is Some
    &&& new.saved() == old.saved()
    &&& cloned(entries_lookup(old.saved(), name)->0, new.calculator)
    &&& new.calculator_name matches Some(n) && n@ == name
    &&& !new.calculator_modified
}

/// The saved entries of `v` by the views of their names.
pub open spec fn saved_model<C>(v: Seq<(String, C)>) -> Seq<(Seq<char>, C)> {
    v.map_values(|e: (String, C)| (e.0@, e.1))
}

impl<C: Clone> Storage<C> {
    /// A storage holding `calculator`, unnamed and unmodified, with nothing saved.
    pub fn new(calculator: C) -> (r: Self)
        ensures
            r.calculator == calculator,
            r.calculator_name is None,
            !r.calculator_modified,
            r.saved() == Seq::<(Seq<char>, C)>::empty(),
    {
        let r = Storage {
            calculator,
            calculator_name: None,
            calculator_modified: false,
            saved_calculators: SavedCalculators { entries: Vec::new() },
        };
        assert(r.saved() =~= Seq::<(Seq<char>, C)>::empty());
        r
    }

    /// The saved calculators by name, oldest first.
    pub open spec fn saved(&self) -> Seq<(Seq<char>, C)> {
        self.saved_calculators@
    }

    /// The names of the saved calculators, oldest first.
    pub open spec fn saved_names(&self) -> Seq<Seq<char>> {
        entries_keys(self.saved())
    }

    /// Whether a calculator is saved under `key`.
    pub fn contains_saved_calculator(&self, key: &str) -> (r: bool)
        ensures
            r == (entries_lookup(self.saved(), key@) is Some),
    {
        let ghost s = self.saved();
        proof {
            lemma_lookup_some_iff_key(s, key@);
        }
        let mut i: usize = 0;
        while i < self.saved_calculators.entries.len()
            invariant
                s == self.saved(),
                s.len() == self.saved_calculators.entries@.len(),
                i <= self.saved_calculators.entries@.len(),
                forall|j: int| 0 <= j < i ==> s[j].0 != key@,
            decreases self.saved_calculators.entries.len() - i,
        {
            if text_eq(self.saved_calculators.entries[i].0.as_str(), key) {
                proof {
                    assert(s[i as int].0 == key@);
                    assert(exists|j: int| 0 <= j < s.len() && #[trigger] s[j].0 == key@);
                    lemma_lookup_some_iff_key(s, key@);
                }
                return true;
            }
            i = i + 1;
        }
        false
    }

    /// The saved calculators with their names, oldest first.
    pub fn iter_saved_calculators(&self) -> (r: Vec<(&String, &C)>)
        ensures
            entries_keys_distinct(self.saved()),
            r@.len() == self.saved().len(),
            forall|i: int|
                0 <= i < r@.len() ==> (#[trigger] r@[i]).0@ == self.saved()[i].0 && *r@[i].1
                    == self.saved()[i].1,
    {
        proof {
            use_type_invariant(&self.saved_calculators);
        }
        let mut r: Vec<(&String, &C)> = Vec::new();
        let mut i: usize = 0;
        while i < self.saved_calculators.entries.len()
            invariant
                i <= self.saved_calculators.entries@.len(),
                r@.len() == i,
                forall|j: int|
                    0 <= j < i ==> (#[trigger] r@[j]).0@ == self.saved()[j].0 && *r@[j].1
                        == self.saved()[j].1,
            decreases self.saved_calculators.entries.len() - i,
        {
            let e = &self.saved_calculators.entries[i];
            r.push((&e.0, &e.1));
            i = i + 1;
        }
        r
    }

    /// The names of the saved calculators, oldest first.
    pub fn saved_calculator_names(&self) -> (r: Vec<String>)
        ensures
            r@.map_values(|n: String| n@) == self.saved_names(),
            entries_keys_distinct(self.saved()),
    {
        proof {
            use_type_invariant(&self.saved_calculators);
        }
        let ghost names = self.saved_names();
        let mut r: Vec<String> = Vec::new();
        let mut i: usize = 0;
        while i < self.saved_calculators.entries.len()
            invariant
                names == self.saved_names(),
                names.len() == self.saved_calculators.entries@.len(),
                i <= self.saved_calculators.entries@.len(),
                r@.len() == i,
                forall|j: int| 0 <= j < i ==> (#[trigger] r@[j])@ == names[j],
            decreases self.saved_calculators.entries.len() - i,
        {
            let n = self.saved_calculators.entries[i].0.clone();
            assert(n@ == names[i as int]);
            r.push(n);
            i = i + 1;
        }
        assert(r@.map_values(|n: String| n@) =~= names);
        r
    }

    /// Removes the calculator saved under `name`, if any; the others keep their order.
    pub fn remove_saved_calculator(&mut self, name: &str)
        ensures
            final(self).saved() == entries_without(old(self).saved(), name@),
            final(self).calculator == old(self).calculator,
            final(self).calculator_name == old(self).calculator_name,
            final(self).calculator_modified == old(self).calculator_modified,
    {
        proof {
            use_type_invariant(&self.saved_calculators);
            lemma_without_distinct(self.saved(), name@);
        }
        let mut old_saved: Vec<(String, C)> = Vec::new();
        std::mem::swap(&mut old_saved, &mut self.saved_calculators.entries);
        let ghost all = saved_model(old_saved@);
        let mut kept: Vec<(String, C)> = Vec::new();
        let n = old_saved.len();
        let mut k: usize = 0;
        while old_saved.len() > 0
            invariant
                all == old(self).saved(),
                k <= all.len(),
                old_saved@.len() + k == all.len(),
                all.len() == n,
                saved_model(old_saved@) == all.skip(k as int),
                saved_model(kept@) == entries_without(all.take(k as int), name@),
                self.calculator == old(self).calculator,
                self.calculator_name == old(self).calculator_name,
                self.calculator_modified == old(self).calculator_modified,
            decreases old_saved.len(),
        {
            let ghost prev = old_saved@;
            let ghost prev_kept = kept@;
            let e = old_saved.remove(0);
            assert(saved_model(prev)[0] == all[k as int]);
            assert(e.0@ == all[k as int].0 && e.1 == all[k as int].1);
            assert(all.take(k + 1).drop_last() =~= all.take(k as int));
            assert(all.take(k + 1).last() == all[k as int]);
            assert forall|j: int| 0 <= j < saved_model(old_saved@).len() implies saved_model(old_saved@)[j] == all.skip(k + 1)[j] by {
                assert(old_saved@[j] == prev[j + 1]);
                assert(saved_model(prev)[j + 1] == all.skip(k as int)[j + 1]);
            }
            assert(saved_model(old_saved@) =~= all.skip(k + 1));
            if !text_eq(e.0.as_str(), name) {
                kept.push(e);
                assert(saved_model(kept@) =~= saved_model(prev_kept).push(all[k as int]));
                assert(saved_model(kept@) =~= entries_without(all.take(k + 1), name@));
            } else {
                assert(saved_model(kept@) =~= entries_without(all.take(k + 1), name@));
            }
            k = k + 1;
        }
        assert(all.take(k as int) =~= all);
        self.saved_calculators.entries = kept;
    }

    /// Saves the current calculator under `name`: a calculator saved under the same name is
    /// replaced, the new one becomes the last, and the current calculator is now named `name`
    /// and unmodified.
    pub fn save_calculator(&mut self, name: String)
        ensures
            storage_saved(*old(self), *final(self), name@),
    {
        proof {
            use_type_invariant(&self.saved_calculators);
        }
        self.remove_saved_calculator(name.as_str());
        let ghost kept = self.saved();
        let c = self.calculator.clone();
        proof {
            lemma_insert_distinct(old(self).saved(), name@, c);
        }
        let mut entries: Vec<(String, C)> = Vec::new();
        std::mem::swap(&mut entries, &mut self.saved_calculators.entries);
        entries.push((name.clone(), c));
        assert(saved_model(entries@) =~= kept.push((name@, c)));
        self.saved_calculators.entries = entries;
        self.calculator_name = Some(name);
        self.calculator_modified = false;
    }

    /// Makes the calculator saved under `name` the current one, named `name` and unmodified;
    /// fails, changing nothing, when no calculator is saved under `name`.
    pub fn load_calculator(&mut self, name: String) -> (r: Result<(), NoSavedCalculator>)
        ensures
            r is Ok <==> entries_lookup(old(self).saved(), name@) is Some,
            r is Ok ==> storage_loaded(*old(self), *final(self), name@),
            r matches Err(NoSavedCalculator(n)) ==> n@ == name@ && *final(self) == *old(self),
    {
        let ghost all = self.saved();
        let mut found: Option<usize> = None;
        let mut i: usize = 0;
        while i < self.saved_calculators.entries.len()
            invariant
                all == self.saved(),
                i <= all.len(),
                found matches Some(f) ==> f < i && all[f as int].0 == name@,
                entries_lookup(all.take(i as int), name@) == (match found {
                    Some(f) => Some(all[f as int].1),
                    None => None::<C>,
                }),
            decreases self.saved_calculators.entries.len() - i,
        {
            assert(all.take(i + 1).drop_last() =~= all.take(i as int));
            if self.saved_calculators.entries[i].0 == name {
                found = Some(i);
            }
            i = i + 1;
        }
        assert(all.take(i as int) =~= all);
        match found {
            Some(f) => {
                self.calculator = self.saved_calculators.entries[f].1.clone();
                self.calculator_name = Some(name);
                self.calculator_modified = false;
                Ok(())
            },
            None => Err(NoSavedCalculator(name)),
        }
    }
}

/// Saving and then loading under one name: the load succeeds and gives back the calculator that
/// was saved (a clone of the calculator current when saving), and the calculators saved under
/// other names are untouched.
pub proof fn lemma_save_then_load<C: Clone>(before: Storage<C>, saved: Storage<C>, name: Seq<char>, other: Seq<char>)
    requires
        storage_saved(before, saved, name),
    ensures
        entries_lookup(saved.saved(), name) == Some(saved.saved().last().1),
        cloned(before.calculator, entries_lookup(saved.saved(), name)->0),
        other != name ==> entries_lookup(saved.saved(), other) == entries_lookup(before.saved(), other),
{
    lemma_lookup_insert(before.saved(), name, saved.saved().last().1, name);
    lemma_lookup_insert(before.saved(), name, saved.saved().last().1, other);
}

/// For calculators whose clone is a copy, saving under a name and then loading that name
/// succeeds and gives back the calculator that was current when saving, named and unmodified.
pub proof fn lemma_save_then_load_copy<C: Clone>(
    before: Storage<C>,
    saved: Storage<C>,
    loaded: Storage<C>,
    name: Seq<char>,
)
    requires
        storage_saved(before, saved, name),
        forall|a: C, b: C| #[trigger] cloned(a, b) ==> a == b,
    ensures
        entries_lookup(saved.saved(), name) is Some,
        storage_loaded(saved, loaded, name) ==> {
            &&& loaded.calculator == before.calculator
            &&& loaded.calculator_name matches Some(n) && n@ == name
            &&& !loaded.calculator_modified
        },
{
    lemma_save_then_load(before, saved, name, name);
    let s = entries_lookup(saved.saved(), name)->0;
    assert(cloned(before.calculator, s));
    if storage_loaded(saved, loaded, name) {
        assert(cloned(s, loaded.calculator));
    }
}

} // verus!
