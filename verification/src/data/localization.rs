use linked_hash_map::LinkedHashMap;
use vstd::prelude::*;
use vstd::utf8::{
    decode_utf8, encode_utf8, is_char_boundary, valid_utf8, encode_utf8_decode_utf8,
    encode_utf8_valid_utf8, valid_utf8_split, is_char_boundary_iff_not_is_continuation_byte,
    is_char_boundary_start_end_of_seq,
};

use vstd::string::StringSliceAdditionalSpecFns;

use crate::entries::{entries_insert, entries_lookup, lemma_lookup_insert};
use crate::text::text_eq;
use crate::xml::{
    attribute, attribute_value, all_with_tag, child_text, children_elems, first_child_elem,
    first_child_element, first_element_child, parse_bool, parse_child_elem_bool,
    parse_child_elem_string, parse_document, text, xml_nodes, xml_parse, XmlError, XmlNodeModel,
};

verus! {

/// What a map from text to text holds: its entries, in insertion order, by their views.
pub uninterp spec fn text_map_entries(m: LinkedHashMap<String, String>) -> Seq<(Seq<char>, Seq<char>)>;

/// `LinkedHashMap::new`: an empty map.
#[verifier::external_body]
pub(crate) fn text_map_new() -> (r: LinkedHashMap<String, String>)
    ensures
        text_map_entries(r) == Seq::<(Seq<char>, Seq<char>)>::empty(),
{
    LinkedHashMap::new()
}

/// `LinkedHashMap::insert`: an entry with the same key is replaced, and the new entry becomes
/// the last one.
#[verifier::external_body]
pub(crate) fn text_map_insert(m: &mut LinkedHashMap<String, String>, k: String, v: String)
    ensures
        text_map_entries(*final(m)) == entries_insert(text_map_entries(*old(m)), k@, v@),
{
    m.insert(k, v);
}

/// `LinkedHashMap::get`: the value stored under `k`, if any.
#[verifier::external_body]
pub(crate) fn text_map_get<'a>(m: &'a LinkedHashMap<String, String>, k: &str) -> (r: Option<&'a String>)
    ensures
        r is Some <==> entries_lookup(text_map_entries(*m), k@) is Some,
        r matches Some(v) ==> Some(v@) == entries_lookup(text_map_entries(*m), k@),
{
    m.get(k)
}

/// The text between the first five and the last UTF-8 bytes of `id`; for an id of the form
/// `{LOC:<name>}` this is `<name>`.
pub open spec fn loc_inner_key(id: Seq<char>) -> Seq<char> {
    let bytes = encode_utf8(id);
    decode_utf8(bytes.subrange(5, bytes.len() - 1))
}

/// Whether the inner key of `id` can be cut out at character boundaries.
pub open spec fn loc_inner_key_cuttable(id: Seq<char>) -> bool {
    let bytes = encode_utf8(id);
    is_char_boundary(bytes, 5) && is_char_boundary(bytes, bytes.len() - 1)
}

/// The localized name of `id` in `entries`: its own entry; otherwise, for ids longer than six
/// bytes, the entry of its inner key; otherwise the id itself.
pub open spec fn localized(entries: Seq<(Seq<char>, Seq<char>)>, id: Seq<char>) -> Seq<char> {
    if entries_lookup(entries, id) is Some {
        entries_lookup(entries, id)->0
    } else if encode_utf8(id).len() > 6 && entries_lookup(entries, loc_inner_key(id)) is Some {
        entries_lookup(entries, loc_inner_key(id))->0
    } else {
        id
    }
}

/// Localized texts by their id.
#[derive(Debug)]
pub struct Localization {
    pub localization: LinkedHashMap<String, String>,
}

impl View for Localization {
    type V = Seq<(Seq<char>, Seq<char>)>;

    open spec fn view(&self) -> Seq<(Seq<char>, Seq<char>)> {
        text_map_entries(self.localization)
    }
}

impl Default for Localization {
    fn default() -> (r: Self)
        ensures
            r@ == Seq::<(Seq<char>, Seq<char>)>::empty(),
    {
        Localization { localization: text_map_new() }
    }
}

/// The cut `id.split_at(5).1.split_at(len - 6).0` is the inner key.
proof fn lemma_inner_key_cut(id: Seq<char>, tail: Seq<u8>, mid: Seq<u8>)
    requires
        encode_utf8(id).len() > 6,
        loc_inner_key_cuttable(id),
        tail == encode_utf8(id).subrange(5, encode_utf8(id).len() as int),
    ensures
        valid_utf8(tail),
        is_char_boundary(tail, tail.len() - 1),
        mid == tail.subrange(0, tail.len() - 1) ==> decode_utf8(mid) == loc_inner_key(id),
{
    let bytes = encode_utf8(id);
    encode_utf8_valid_utf8(id);
    valid_utf8_split(bytes, 5);
    is_char_boundary_iff_not_is_continuation_byte(bytes, bytes.len() - 1);
    is_char_boundary_iff_not_is_continuation_byte(tail, tail.len() - 1);
    assert(tail[tail.len() - 1] == bytes[bytes.len() - 1]);
    assert(tail.subrange(0, tail.len() - 1) =~= bytes.subrange(5, bytes.len() - 1));
}

impl Localization {
    /// The localized name of `id`. Some mods use `{LOC:<name>}` as a display name: when `id`
    /// itself has no entry and is longer than six bytes, the entry of the text between its
    /// first five bytes and its last byte is tried; otherwise `id` itself is the name.
    pub fn get<'a>(&'a self, id: &'a str) -> (r: &'a str)
        requires
            entries_lookup(self@, id@) is None && encode_utf8(id@).len() > 6
                ==> loc_inner_key_cuttable(id@),
        ensures
            r@ == localized(self@, id@),
    {
        match text_map_get(&self.localization, id) {
            Some(name) => name.as_str(),
            None => {
                let len = id.as_bytes().len();
                if len > 6 {
                    proof {
                        encode_utf8_valid_utf8(id@);
                        is_char_boundary_start_end_of_seq(encode_utf8(id@));
                    }
                    let (_head, tail) = id.split_at(5);
                    assert(tail.spec_bytes() =~= encode_utf8(id@).subrange(5, encode_utf8(id@).len() as int));
                    assert(tail.spec_bytes().len() == len - 5);
                    proof {
                        lemma_inner_key_cut(id@, tail.spec_bytes(), tail.spec_bytes().subrange(0, tail.spec_bytes().len() - 1));
                    }
                    let (inner, _last) = tail.split_at(len - 6);
                    proof {
                        encode_utf8_decode_utf8(inner@);
                        assert(inner@ == loc_inner_key(id@));
                    }
                    match text_map_get(&self.localization, inner) {
                        Some(name) => name.as_str(),
                        None => id,
                    }
                } else {
                    id
                }
            }
        }
    }
}

impl Localization {
    /// The localized name of `id` as `get` gives it, or none where `get` would have to cut the
    /// inner key of `id` inside a character.
    pub fn get_checked<'a>(&'a self, id: &'a str) -> (r: Option<&'a str>)
        ensures
            r is None <==> (entries_lookup(self@, id@) is None && encode_utf8(id@).len() > 6
                && !loc_inner_key_cuttable(id@)),
            r matches Some(s) ==> s@ == localized(self@, id@),
    {
        let bytes = id.as_bytes();
        let len = bytes.len();
        if len > 6 && text_map_get(&self.localization, id).is_none() {
            proof {
                encode_utf8_valid_utf8(id@);
                is_char_boundary_iff_not_is_continuation_byte(bytes@, 5);
                is_char_boundary_iff_not_is_continuation_byte(bytes@, len - 1);
            }
            let first = bytes[5];
            let last = bytes[len - 1];
            if (0x80 <= first && first <= 0xbf) || (0x80 <= last && last <= 0xbf) {
                return None;
            }
        }
        Some(self.get(id))
    }
}

/// The name under which a block is shown: its rename if it has one, else its localized name.
pub open spec fn block_display_name(
    entries: Seq<(Seq<char>, Seq<char>)>,
    name: Seq<char>,
    rename: Option<Seq<char>>,
) -> Seq<char> {
    match rename {
        Some(r) => r,
        None => localized(entries, name),
    }
}

/// The name under which a block with display name `name` and rename `rename` is shown; none
/// where the localized name of `name` would have to be cut inside a character.
pub fn display_name<'a>(localization: &'a Localization, name: &'a str, rename: Option<&'a str>) -> (r: Option<&'a str>)
    ensures
        r is None <==> (rename is None && entries_lookup(localization@, name@) is None
            && encode_utf8(name@).len() > 6 && !loc_inner_key_cuttable(name@)),
        r matches Some(s) ==> s@ == block_display_name(
            localization@,
            name@,
            match rename {
                Some(n) => Some(n@),
                None => None,
            },
        ),
{
    match rename {
        Some(r) => Some(r),
        None => localization.get_checked(name),
    }
}

/// `entries` with each of `pairs` inserted in order.
pub open spec fn insert_all(entries: Seq<(Seq<char>, Seq<char>)>, pairs: Seq<(Seq<char>, Seq<char>)>) -> Seq<(Seq<char>, Seq<char>)>
    decreases pairs.len(),
{
    if pairs.len() == 0 {
        entries
    } else {
        entries_insert(insert_all(entries, pairs.drop_last()), pairs.last().0, pairs.last().1)
    }
}

/// The localized text that a `data` element of a resource file defines: its `name` attribute
/// and the text of its first child element, when it has both.
pub open spec fn resx_entry(nodes: Seq<XmlNodeModel>, d: usize) -> Option<(Seq<char>, Seq<char>)> {
    match attribute_value(nodes[d as int].attributes, None, "name"@) {
        Some(name) => match first_child_element(nodes, d) {
            Some(v) => match nodes[v as int].text {
                Some(t) => Some((name, t)),
                None => None,
            },
            None => None,
        },
        None => None,
    }
}

/// The localized texts that the `data` elements `ds` define, in order.
pub open spec fn resx_pairs(nodes: Seq<XmlNodeModel>, ds: Seq<usize>) -> Seq<(Seq<char>, Seq<char>)>
    decreases ds.len(),
{
    if ds.len() == 0 {
        Seq::empty()
    } else {
        let rest = resx_pairs(nodes, ds.drop_last());
        match resx_entry(nodes, ds.last()) {
            Some(p) => rest.push(p),
            None => rest,
        }
    }
}

/// The localized texts that a resource document defines: those of the `data` children of its
/// document element.
pub open spec fn resx_document_pairs(nodes: Seq<XmlNodeModel>, root: usize) -> Seq<(Seq<char>, Seq<char>)> {
    resx_pairs(nodes, all_with_tag(nodes, nodes[root as int].children, "data"@))
}

/// What a localization description document says: the resource file to read when the described
/// localization is English or the default one, nothing otherwise; or why the document does not
/// say it.
pub open spec fn sbl_outcome(nodes: Seq<XmlNodeModel>) -> Result<Option<Seq<char>>, XmlError> {
    match first_child_element(nodes, 0) {
        None => Err(XmlError::StructureFail),
        Some(root) => match child_text(nodes, root, "ResXName"@) {
            None => Err(XmlError::StructureFail),
            Some(resx) => match child_text(nodes, root, "Language"@) {
                None => Err(XmlError::StructureFail),
                Some(language) => match child_text(nodes, root, "Default"@) {
                    None => Err(XmlError::StructureFail),
                    Some(d) => match parse_bool(d) {
                        None => Err(XmlError::ParseTextFail),
                        Some(default) => Ok(
                            if language == "en-US"@ || default {
                                Some(resx)
                            } else {
                                None
                            },
                        ),
                    },
                },
            },
        },
    }
}

/// Failures while extracting localized texts from a document.
#[derive(Debug)]
pub enum LocalizationError {
    /// The document is not well-formed XML.
    ParseFileFail(roxmltree::Error),
    /// The document does not have the expected content.
    XmlFail(XmlError),
}

/// Collects localized texts from the game's and mods' resource files.
#[derive(Debug)]
pub struct LocalizationBuilder {
    pub localization: LinkedHashMap<String, String>,
}

impl View for LocalizationBuilder {
    type V = Seq<(Seq<char>, Seq<char>)>;

    open spec fn view(&self) -> Seq<(Seq<char>, Seq<char>)> {
        text_map_entries(self.localization)
    }
}

impl Default for LocalizationBuilder {
    fn default() -> (r: Self)
        ensures
            r@ == Seq::<(Seq<char>, Seq<char>)>::empty(),
    {
        LocalizationBuilder { localization: text_map_new() }
    }
}

impl LocalizationBuilder {
    /// Adds the localized texts that a resource document (a `.resx` file) defines: for each
    /// `data` child of its document element that has a `name` attribute and a first child element
    /// with text, that text under that name; later texts replace earlier ones of the same name.
    pub fn update_from_resx_text(&mut self, resx: &str) -> (r: Result<(), LocalizationError>)
        ensures
            match xml_parse(resx@) {
                None => r matches Err(LocalizationError::ParseFileFail(_)) && final(self)@ == old(self)@,
                Some(nodes) => match first_child_element(nodes, 0) {
                    None => r matches Err(LocalizationError::XmlFail(XmlError::StructureFail))
                        && final(self)@ == old(self)@,
                    Some(root) => r is Ok && final(self)@ == insert_all(
                        old(self)@,
                        resx_document_pairs(nodes, root),
                    ),
                },
            },
    {
        let doc = match parse_document(resx) {
            Ok(doc) => doc,
            Err(e) => return Err(LocalizationError::ParseFileFail(e)),
        };
        let ghost nodes = xml_nodes(doc);
        let root = match first_child_elem(&doc, 0) {
            Ok(root) => root,
            Err(e) => return Err(LocalizationError::XmlFail(e)),
        };
        let ds = children_elems(&doc, root, "data");
        let ghost start = self@;
        let mut i: usize = 0;
        while i < ds.len()
            invariant
                nodes == xml_nodes(doc),
                root < nodes.len(),
                ds@ == all_with_tag(nodes, nodes[root as int].children, "data"@),
                forall|k: int| 0 <= k < ds@.len() ==> #[trigger] ds@[k] < nodes.len(),
                i <= ds@.len(),
                self@ == insert_all(start, resx_pairs(nodes, ds@.take(i as int))),
            decreases ds.len() - i,
        {
            let d = ds[i];
            assert(ds@.take(i + 1).drop_last() =~= ds@.take(i as int));
            assert(ds@.take(i + 1).last() == d);
            if let Some(name) = attribute(&doc, d, "name") {
                if let Some(v) = first_element_child(&doc, d) {
                    if let Some(value) = text(&doc, v) {
                        text_map_insert(&mut self.localization, name.to_owned(), value.to_owned());
                        let ghost p = resx_pairs(nodes, ds@.take(i as int));
                        assert(resx_pairs(nodes, ds@.take(i + 1)) == p.push((name@, value@)));
                        assert(p.push((name@, value@)).drop_last() =~= p);
                    }
                }
            }
            i = i + 1;
        }
        assert(ds@.take(i as int) =~= ds@);
        Ok(())
    }

    /// Reads a localization description document (a `.sbl` file): the name of the resource file
    /// to read when it describes the English (`en-US`) or the default localization, nothing when
    /// it describes another one.
    pub fn sbl_resx_name(sbl: &str) -> (r: Result<Option<String>, LocalizationError>)
        ensures
            match xml_parse(sbl@) {
                None => r matches Err(LocalizationError::ParseFileFail(_)),
                Some(nodes) => match sbl_outcome(nodes) {
                    Ok(None) => r matches Ok(None),
                    Ok(Some(resx)) => r matches Ok(Some(s)) && s@ == resx,
                    Err(e) => r matches Err(LocalizationError::XmlFail(f)) && f == e,
                },
            },
    {
        let doc = match parse_document(sbl) {
            Ok(doc) => doc,
            Err(e) => return Err(LocalizationError::ParseFileFail(e)),
        };
        let root = match first_child_elem(&doc, 0) {
            Ok(root) => root,
            Err(e) => return Err(LocalizationError::XmlFail(e)),
        };
        let resx_name = match parse_child_elem_string(&doc, root, "ResXName") {
            Ok(s) => s,
            Err(e) => return Err(LocalizationError::XmlFail(e)),
        };
        let language = match parse_child_elem_string(&doc, root, "Language") {
            Ok(s) => s,
            Err(e) => return Err(LocalizationError::XmlFail(e)),
        };
        let default = match parse_child_elem_bool(&doc, root, "Default") {
            Ok(b) => b,
            Err(e) => return Err(LocalizationError::XmlFail(e)),
        };
        if text_eq(language.as_str(), "en-US") || default {
            Ok(Some(resx_name))
        } else {
            Ok(None)
        }
    }

    /// The collected localized texts.
    pub fn into_localization(self) -> (r: Localization)
        ensures
            r@ == self@,
    {
        Localization { localization: self.localization }
    }
}

/// Reading texts into a localization: a name looks up the last text read under it, and names
/// not read keep their earlier text.
pub proof fn lemma_insert_all_lookup(
    entries: Seq<(Seq<char>, Seq<char>)>,
    pairs: Seq<(Seq<char>, Seq<char>)>,
    k: Seq<char>,
)
    ensures
        entries_lookup(insert_all(entries, pairs), k) == (if entries_lookup(pairs, k) is Some {
            entries_lookup(pairs, k)
        } else {
            entries_lookup(entries, k)
        }),
    decreases pairs.len(),
{
    if pairs.len() > 0 {
        lemma_insert_all_lookup(entries, pairs.drop_last(), k);
        lemma_lookup_insert(insert_all(entries, pairs.drop_last()), pairs.last().0, pairs.last().1, k);
    }
}

} // verus!
