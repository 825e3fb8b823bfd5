use vstd::prelude::*;

use crate::data::mods::Mod;

verus! {

/// What to extract from the game's data: the mods to include, which blocks to hide by exact name
/// or regular expression on their localized names, subtype ids and ids, and regular expressions
/// with replacements that rename blocks.
#[derive(Debug)]
pub struct ExtractConfig {
    pub extract_mods: Vec<Mod>,
    pub hide_block_by_exact_name: Vec<String>,
    pub hide_block_by_regex_name: Vec<String>,
    pub hide_block_by_exact_subtype_id: Vec<String>,
    pub hide_block_by_regex_subtype_id: Vec<String>,
    pub hide_block_by_exact_id: Vec<String>,
    pub hide_block_by_regex_id: Vec<String>,
    pub rename_block_by_regex: Vec<(String, String)>,
}

impl Default for ExtractConfig {
    fn default() -> (r: Self)
        ensures
            r.extract_mods@.len() == 0,
            r.hide_block_by_exact_name@.len() == 0,
            r.hide_block_by_regex_name@.len() == 0,
            r.hide_block_by_exact_subtype_id@.len() == 0,
            r.hide_block_by_regex_subtype_id@.len() == 0,
            r.hide_block_by_exact_id@.len() == 0,
            r.hide_block_by_regex_id@.len() == 0,
            r.rename_block_by_regex@.len() == 0,
    {
        ExtractConfig {
            extract_mods: Vec::new(),
            hide_block_by_exact_name: Vec::new(),
            hide_block_by_regex_name: Vec::new(),
            hide_block_by_exact_subtype_id: Vec::new(),
            hide_block_by_regex_subtype_id: Vec::new(),
            hide_block_by_exact_id: Vec::new(),
            hide_block_by_regex_id: Vec::new(),
            rename_block_by_regex: Vec::new(),
        }
    }
}

} // verus!
