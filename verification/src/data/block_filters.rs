//! Which block definitions are hidden from the calculator, and under which names blocks are
//! shown, as an extraction configuration decides it with exact names and regular expressions.
use regex::{Regex, RegexSet};
use vstd::prelude::*;

use crate::text::text_eq;

verus! {

/// `regex::Regex`: a compiled regular expression.
#[verifier::external_type_specification]
#[verifier::external_body]
pub struct ExRegex(Regex);

/// `regex::RegexSet`: a set of compiled regular expressions matched together.
#[verifier::external_type_specification]
#[verifier::external_body]
pub struct ExRegexSet(RegexSet);

/// `regex::Error`: why a regular expression could not be compiled.
#[verifier::external_type_specification]
#[verifier::external_body]
pub struct ExRegexError(regex::Error);

/// The pattern a compiled regular expression was compiled from (`Regex::as_str`).
pub uninterp spec fn regex_pattern(re: Regex) -> Seq<char>;

/// Whether `Regex::new` compiles `pattern`.
pub uninterp spec fn regex_compiles(pattern: Seq<char>) -> bool;

/// Whether the regular expression `pattern` matches somewhere in `haystack`.
pub uninterp spec fn regex_matches(pattern: Seq<char>, haystack: Seq<char>) -> bool;

/// `haystack` with every match of `pattern` replaced by `replacement`, in which `$name` and
/// `${name}` stand for capture groups.
pub uninterp spec fn regex_replace_all(pattern: Seq<char>, haystack: Seq<char>, replacement: Seq<char>) -> Seq<char>;

/// The patterns a set of regular expressions was compiled from (`RegexSet::patterns`).
pub uninterp spec fn regex_set_patterns(set: RegexSet) -> Seq<Seq<char>>;

/// Whether `RegexSet::new` compiles `patterns` into a set.
pub uninterp spec fn regex_set_compiles(patterns: Seq<Seq<char>>) -> bool;

/// `Regex::new`: compiles a pattern; the compiled expression remembers its pattern.
#[verifier::external_body]
fn regex_new(pattern: &str) -> (r: Result<Regex, regex::Error>)
    ensures
        r is Ok <==> regex_compiles(pattern@),
        r matches Ok(re) ==> regex_pattern(re) == pattern@,
{
    Regex::new(pattern)
}

/// `Regex::is_match`: whether the expression matches somewhere in `haystack`.
#[verifier::external_body]
fn regex_is_match(re: &Regex, haystack: &str) -> (r: bool)
    ensures
        r == regex_matches(regex_pattern(*re), haystack@),
{
    re.is_match(haystack)
}

/// `Regex::replace_all` with a text replacement.
#[verifier::external_body]
fn regex_replace_all_text(re: &Regex, haystack: &str, replacement: &str) -> (r: String)
    ensures
        r@ == regex_replace_all(regex_pattern(*re), haystack@, replacement@),
{
    re.replace_all(haystack, replacement).into_owned()
}

/// `RegexSet::new`: compiles patterns into a set that remembers them in order.
#[verifier::external_body]
fn regex_set_new(patterns: &Vec<String>) -> (r: Result<RegexSet, regex::Error>)
    ensures
        r is Ok <==> regex_set_compiles(patterns@.map_values(|p: String| p@)),
        r matches Ok(s) ==> regex_set_patterns(s) == patterns@.map_values(|p: String| p@),
{
    RegexSet::new(patterns)
}

/// `RegexSet::is_match`: whether one of the expressions of the set matches somewhere in
/// `haystack`.
#[verifier::external_body]
fn regex_set_is_match(set: &RegexSet, haystack: &str) -> (r: bool)
    ensures
        r == (exists|i: int|
            0 <= i < regex_set_patterns(*set).len() && regex_matches(
                #[trigger] regex_set_patterns(*set)[i],
                haystack@,
            )),
{
    set.is_match(haystack)
}

/// Whether `name` is hidden by the exact names `exact` or by one of the regular expressions
/// `patterns`.
pub open spec fn hidden_by(exact: Seq<Seq<char>>, patterns: Seq<Seq<char>>, name: Seq<char>) -> bool {
    exact.contains(name) || exists|i: int| 0 <= i < patterns.len() && regex_matches(#[trigger] patterns[i], name)
}

/// The new name of `name` by the first rename rule whose expression matches it: the name with
/// every match replaced by the rule's replacement.
pub open spec fn renamed_by(rules: Seq<(Seq<char>, Seq<char>)>, name: Seq<char>) -> Option<Seq<char>>
    decreases rules.len(),
{
    if rules.len() == 0 {
        None
    } else if regex_matches(rules[0].0, name) {
        Some(regex_replace_all(rules[0].0, name, rules[0].1))
    } else {
        renamed_by(rules.drop_first(), name)
    }
}

/// A regular expression could not be compiled.
#[derive(Debug)]
pub enum CreateError {
    XmlError(regex::Error),
}

/// Which blocks are hidden, by exact names and regular expressions on their localized names,
/// subtype ids and ids, and which are renamed, by the first matching regular expression.
#[derive(Debug)]
pub struct BlockFilters {
    hide_block_by_exact_name: Vec<String>,
    hide_block_by_regex_name: RegexSet,
    hide_block_by_exact_subtype_id: Vec<String>,
    hide_block_by_regex_subtype_id: RegexSet,
    hide_block_by_exact_id: Vec<String>,
    hide_block_by_regex_id: RegexSet,
    rename_block_by_regex: Vec<(Regex, String)>,
}

/// The views of a list of texts.
pub open spec fn texts(v: Seq<String>) -> Seq<Seq<char>> {
    v.map_values(|s: String| s@)
}

impl BlockFilters {
    pub closed spec fn exact_names(&self) -> Seq<Seq<char>> {
        texts(self.hide_block_by_exact_name@)
    }

    pub closed spec fn name_patterns(&self) -> Seq<Seq<char>> {
        regex_set_patterns(self.hide_block_by_regex_name)
    }

    pub closed spec fn exact_subtype_ids(&self) -> Seq<Seq<char>> {
        texts(self.hide_block_by_exact_subtype_id@)
    }

    pub closed spec fn subtype_id_patterns(&self) -> Seq<Seq<char>> {
        regex_set_patterns(self.hide_block_by_regex_subtype_id)
    }

    pub closed spec fn exact_ids(&self) -> Seq<Seq<char>> {
        texts(self.hide_block_by_exact_id@)
    }

    pub closed spec fn id_patterns(&self) -> Seq<Seq<char>> {
        regex_set_patterns(self.hide_block_by_regex_id)
    }

    /// The rename rules: pattern and replacement, in order.
    pub closed spec fn rename_rules(&self) -> Seq<(Seq<char>, Seq<char>)> {
        self.rename_block_by_regex@.map_values(|r: (Regex, String)| (regex_pattern(r.0), r.1@))
    }

    /// Whether a block with the given localized name, subtype id and id is hidden: blocks that
    /// are not public always are; others when one of their names is hidden by its rules.
    pub open spec fn hides(&self, public: bool, name: Seq<char>, subtype_id: Seq<char>, id: Seq<char>) -> bool {
        !public || hidden_by(self.exact_names(), self.name_patterns(), name) || hidden_by(
            self.exact_subtype_ids(),
            self.subtype_id_patterns(),
            subtype_id,
        ) || hidden_by(self.exact_ids(), self.id_patterns(), id)
    }

    /// Compiles the rules; fails when one of the regular expressions does not compile.
    pub fn new(
        hide_block_by_exact_name: Vec<String>,
        hide_block_by_regex_name: Vec<String>,
        hide_block_by_exact_subtype_id: Vec<String>,
        hide_block_by_regex_subtype_id: Vec<String>,
        hide_block_by_exact_id: Vec<String>,
        hide_block_by_regex_id: Vec<String>,
        rename_block_by_regex: Vec<(String, String)>,
    ) -> (r: Result<Self, CreateError>)
        ensures
            r is Ok <==> {
                &&& regex_set_compiles(texts(hide_block_by_regex_name@))
                &&& regex_set_compiles(texts(hide_block_by_regex_subtype_id@))
                &&& regex_set_compiles(texts(hide_block_by_regex_id@))
                &&& forall|i: int|
                    0 <= i < rename_block_by_regex@.len() ==> regex_compiles(
                        #[trigger] rename_block_by_regex@[i].0@,
                    )
            },
            r matches Ok(f) ==> {
                &&& f.exact_names() == texts(hide_block_by_exact_name@)
                &&& f.name_patterns() == texts(hide_block_by_regex_name@)
                &&& f.exact_subtype_ids() == texts(hide_block_by_exact_subtype_id@)
                &&& f.subtype_id_patterns() == texts(hide_block_by_regex_subtype_id@)
                &&& f.exact_ids() == texts(hide_block_by_exact_id@)
                &&& f.id_patterns() == texts(hide_block_by_regex_id@)
                &&& f.rename_rules() == rename_block_by_regex@.map_values(
                    |p: (String, String)| (p.0@, p.1@),
                )
            },
    {
        let name_set = match regex_set_new(&hide_block_by_regex_name) {
            Ok(s) => s,
            Err(e) => return Err(CreateError::XmlError(e)),
        };
        let subtype_id_set = match regex_set_new(&hide_block_by_regex_subtype_id) {
            Ok(s) => s,
            Err(e) => return Err(CreateError::XmlError(e)),
        };
        let id_set = match regex_set_new(&hide_block_by_regex_id) {
            Ok(s) => s,
            Err(e) => return Err(CreateError::XmlError(e)),
        };
        let ghost rules = rename_block_by_regex@;
        let ghost want = rules.map_values(|p: (String, String)| (p.0@, p.1@));
        let mut renames: Vec<(Regex, String)> = Vec::new();
        let mut i: usize = 0;
        while i < rename_block_by_regex.len()
            invariant
                rules == rename_block_by_regex@,
                want == rules.map_values(|p: (String, String)| (p.0@, p.1@)),
                i <= rules.len(),
                forall|j: int| 0 <= j < i ==> regex_compiles(#[trigger] rules[j].0@),
                renames@.map_values(|r: (Regex, String)| (regex_pattern(r.0), r.1@)) =~= want.take(i as int),
            decreases rename_block_by_regex.len() - i,
        {
            let re = match regex_new(rename_block_by_regex[i].0.as_str()) {
                Ok(re) => re,
                Err(e) => return Err(CreateError::XmlError(e)),
            };
            let replacement = rename_block_by_regex[i].1.clone();
            let ghost before = renames@;
            renames.push((re, replacement));
            assert(renames@ == before.push((re, replacement)));
            assert(want.take(i + 1) =~= want.take(i as int).push(want[i as int]));
            assert(renames@.map_values(|r: (Regex, String)| (regex_pattern(r.0), r.1@)) =~= before.map_values(
                |r: (Regex, String)| (regex_pattern(r.0), r.1@),
            ).push((regex_pattern(re), replacement@)));
            i = i + 1;
        }
        assert(want.take(i as int) =~= want);
        Ok(BlockFilters {
            hide_block_by_exact_name,
            hide_block_by_regex_name: name_set,
            hide_block_by_exact_subtype_id,
            hide_block_by_regex_subtype_id: subtype_id_set,
            hide_block_by_exact_id,
            hide_block_by_regex_id: id_set,
            rename_block_by_regex: renames,
        })
    }

    /// Whether the block with the given localized name, subtype id and id is hidden, given
    /// whether it is public.
    pub fn is_block_hidden(&self, public: bool, name: &str, subtype_id: &str, id: &str) -> (r: bool)
        ensures
            r == self.hides(public, name@, subtype_id@, id@),
    {
        if !public {
            true
        } else {
            is_hidden(name, &self.hide_block_by_exact_name, &self.hide_block_by_regex_name)
                || is_hidden(subtype_id, &self.hide_block_by_exact_subtype_id, &self.hide_block_by_regex_subtype_id)
                || is_hidden(id, &self.hide_block_by_exact_id, &self.hide_block_by_regex_id)
        }
    }

    /// The name under which the block with the given localized name is shown, when a rename
    /// rule matches it.
    pub fn rename(&self, name: &str) -> (r: Option<String>)
        ensures
            r is Some <==> renamed_by(self.rename_rules(), name@) is Some,
            r matches Some(n) ==> renamed_by(self.rename_rules(), name@) == Some(n@),
    {
        rename(name, &self.rename_block_by_regex)
    }
}

/// Whether `name` is one of `exact` or matched by one of the expressions of `regexes`.
fn is_hidden(name: &str, exact: &Vec<String>, regexes: &RegexSet) -> (r: bool)
    ensures
        r == hidden_by(texts(exact@), regex_set_patterns(*regexes), name@),
{
    let ghost ex = texts(exact@);
    let mut i: usize = 0;
    while i < exact.len()
        invariant
            ex == texts(exact@),
            i <= exact@.len(),
            forall|j: int| 0 <= j < i ==> ex[j] != name@,
        decreases exact.len() - i,
    {
        if text_eq(exact[i].as_str(), name) {
            assert(ex[i as int] == name@);
            return true;
        }
        i = i + 1;
    }
    assert(!ex.contains(name@));
    regex_set_is_match(regexes, name)
}

/// The new name of `name` by the first rule whose expression matches it.
fn rename(name: &str, rules: &Vec<(Regex, String)>) -> (r: Option<String>)
    ensures
        r is Some <==> renamed_by(rules@.map_values(|r: (Regex, String)| (regex_pattern(r.0), r.1@)), name@) is Some,
        r matches Some(n) ==> renamed_by(rules@.map_values(|r: (Regex, String)| (regex_pattern(r.0), r.1@)), name@) == Some(n@),
{
    let ghost all = rules@.map_values(|r: (Regex, String)| (regex_pattern(r.0), r.1@));
    assert(all.skip(0) =~= all);
    let mut i: usize = 0;
    while i < rules.len()
        invariant
            all == rules@.map_values(|r: (Regex, String)| (regex_pattern(r.0), r.1@)),
            i <= rules@.len(),
            renamed_by(all, name@) == renamed_by(all.skip(i as int), name@),
        decreases rules.len() - i,
    {
        let ghost rest = all.skip(i as int);
        assert(rest.drop_first() =~= all.skip(i + 1));
        if regex_is_match(&rules[i].0, name) {
            return Some(regex_replace_all_text(&rules[i].0, name, rules[i].1.as_str()));
        }
        i = i + 1;
    }
    None
}

} // verus!
