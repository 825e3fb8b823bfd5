use secalc_core::data::block_order::alphanumeric_positions;
use secalc_core::data::block_filters::{BlockFilters, CreateError};
use secalc_core::data::extract::ExtractConfig;
use secalc_core::data::mods::{Mod, Mods};

#[test]
fn mods_keep_the_last_of_an_id() {
    let mods = Mods::new(vec![
        Mod(1, "First".to_string()),
        Mod(2, "Second".to_string()),
        Mod(1, "First, again".to_string()),
    ]);
    assert_eq!(mods.get(&1).map(|m| m.1.as_str()), Some("First, again"));
    assert_eq!(mods.get(&2).map(|m| m.1.as_str()), Some("Second"));
    assert!(mods.get(&3).is_none());
    let order: Vec<u64> = mods.mods.keys().copied().collect();
    assert_eq!(order, vec![2, 1]);
}

#[test]
fn mod_defaults_and_clone() {
    let m = Mod::default();
    assert_eq!((m.0, m.1.as_str()), (0, ""));
    let c = Mod(1_234, "Name".to_string()).clone();
    assert_eq!((c.0, c.1.as_str()), (1_234, "Name"));
    assert_eq!(Mods::default().mods.len(), 0);
}

#[test]
fn extract_config_default_is_empty() {
    let c = ExtractConfig::default();
    assert!(c.extract_mods.is_empty());
    assert!(c.hide_block_by_exact_name.is_empty());
    assert!(c.hide_block_by_regex_name.is_empty());
    assert!(c.hide_block_by_exact_subtype_id.is_empty());
    assert!(c.hide_block_by_regex_subtype_id.is_empty());
    assert!(c.hide_block_by_exact_id.is_empty());
    assert!(c.hide_block_by_regex_id.is_empty());
    assert!(c.rename_block_by_regex.is_empty());
}

fn strings(v: &[&str]) -> Vec<String> {
    v.iter().map(|s| s.to_string()).collect()
}

fn game_filters() -> BlockFilters {
    BlockFilters::new(
        strings(&["Weapon Rack", "Control Seat", "Passenger Seat", "Industrial Hydrogen Tank"]),
        strings(&["Industrial .+ Thruster", "Sci-Fi .+ Thruster", ".*Warfare .+ Thruster", "Offroad Wheel Suspension .+", "Wheel Suspension .+ Right"]),
        strings(&["LargeBlockBed"]),
        strings(&["^Debug"]),
        strings(&["Cockpit.OpenCockpitLarge"]),
        strings(&["@2[0-9]+$"]),
        vec![("Wheel Suspension (.+) Left".to_string(), "Wheel Suspension $1".to_string())],
    )
    .unwrap()
}

#[test]
fn hides_by_exact_name_and_regex() {
    let f = game_filters();
    assert!(f.is_block_hidden(true, "Weapon Rack", "X", "A.X"));
    assert!(f.is_block_hidden(true, "Industrial Hydrogen Thruster", "X", "A.X"));
    assert!(f.is_block_hidden(true, "Wheel Suspension 3x3 Right", "X", "A.X"));
    assert!(!f.is_block_hidden(true, "Wheel Suspension 3x3 Left", "X", "A.X"));
    assert!(!f.is_block_hidden(true, "Large Hydrogen Thruster", "X", "A.X"));
    assert!(!f.is_block_hidden(true, "Control Seats", "X", "A.X"));
}

#[test]
fn hides_by_subtype_id_and_id() {
    let f = game_filters();
    assert!(f.is_block_hidden(true, "Bed", "LargeBlockBed", "CryoChamber.LargeBlockBed"));
    assert!(f.is_block_hidden(true, "Thing", "DebugSphere", "A.DebugSphere"));
    assert!(f.is_block_hidden(true, "Cockpit", "OpenCockpitLarge", "Cockpit.OpenCockpitLarge"));
    assert!(f.is_block_hidden(true, "Mod Block", "Sub", "A.Sub@2345"));
    assert!(!f.is_block_hidden(true, "Mod Block", "Sub", "A.Sub@1345"));
}

#[test]
fn non_public_blocks_are_hidden() {
    let f = game_filters();
    assert!(f.is_block_hidden(false, "Battery", "LargeBlockBatteryBlock", "BatteryBlock.LargeBlockBatteryBlock"));
    assert!(!f.is_block_hidden(true, "Battery", "LargeBlockBatteryBlock", "BatteryBlock.LargeBlockBatteryBlock"));
}

#[test]
fn renames_by_first_matching_rule() {
    let f = game_filters();
    assert_eq!(f.rename("Wheel Suspension 3x3 Left"), Some("Wheel Suspension 3x3".to_string()));
    assert_eq!(f.rename("Wheel Suspension 3x3 Right"), None);
    assert_eq!(f.rename("Battery"), None);
}

#[test]
fn invalid_regular_expressions_are_refused() {
    let bad = BlockFilters::new(vec![], strings(&["("]), vec![], vec![], vec![], vec![], vec![]);
    assert!(matches!(bad, Err(CreateError::XmlError(_))));
    let bad_rename = BlockFilters::new(vec![], vec![], vec![], vec![], vec![], vec![], vec![("[".to_string(), "x".to_string())]);
    assert!(matches!(bad_rename, Err(CreateError::XmlError(_))));
    let empty = BlockFilters::new(vec![], vec![], vec![], vec![], vec![], vec![], vec![]).unwrap();
    assert!(!empty.is_block_hidden(true, "Anything", "Any", "A.Any"));
    assert!(empty.is_block_hidden(false, "Anything", "Any", "A.Any"));
}

#[test]
fn blocks_are_listed_with_numbers_by_value() {
    let names: Vec<String> = ["Thruster 10", "Thruster 2", "Battery", "Thruster 1"].iter().map(|s| s.to_string()).collect();
    assert_eq!(alphanumeric_positions(&names), vec![2, 3, 1, 0]);
    let same: Vec<String> = ["B", "A", "B", "A"].iter().map(|s| s.to_string()).collect();
    assert_eq!(alphanumeric_positions(&same), vec![1, 3, 0, 2]);
    assert!(alphanumeric_positions(&Vec::new()).is_empty());
}
