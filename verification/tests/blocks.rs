use secalc_core::data::blocks::{
    block_kind, find_entity_component, format_block_id, is_public, BlockIdentity, BlockKind, GridSize, ThrusterType,
};
use roxmltree::Document;
use secalc_core::xml::{child_elem, children_elems, first_child_elem, parse_child_elem_string, XmlError};

const CUBE_BLOCKS: &str = r#"<?xml version="1.0"?>
<Definitions xmlns:xsi="http://www.w3.org/2001/XMLSchema-instance">
  <CubeBlocks>
    <Definition xsi:type="MyObjectBuilder_BatteryBlockDefinition">
      <Id><TypeId>BatteryBlock</TypeId><SubtypeId>LargeBlockBatteryBlock</SubtypeId></Id>
      <DisplayName>DisplayName_Block_Battery</DisplayName>
      <CubeSize>Large</CubeSize>
    </Definition>
    <Definition xsi:type="MyObjectBuilder_ThrustDefinition">
      <Id><TypeId>Thrust</TypeId><SubtypeId>SmallBlockSmallThrust</SubtypeId></Id>
      <DisplayName>DisplayName_Block_SmallThrust</DisplayName>
      <CubeSize>Small</CubeSize>
      <ThrusterType>Ion</ThrusterType>
      <Public>false</Public>
    </Definition>
    <Definition xsi:type="MyObjectBuilder_WeaponBlockDefinition">
      <Id><TypeId>SmallMissileLauncher</TypeId><SubtypeId>LargeRailgun</SubtypeId></Id>
      <DisplayName>Railgun</DisplayName>
      <CubeSize>Medium</CubeSize>
      <ThrusterType>Plasma</ThrusterType>
    </Definition>
    <Definition xsi:type="MyObjectBuilder_WeaponBlockDefinition">
      <Id><TypeId>SmallGatlingGun</TypeId></Id>
      <DisplayName>Gatling Gun</DisplayName>
      <Public>true</Public>
    </Definition>
    <Definition xsi:type="MyObjectBuilder_GasTankDefinition">
      <Id><TypeId>OxygenTank</TypeId><SubtypeId>LargeHydrogenTank</SubtypeId></Id>
      <DisplayName>Hydrogen Tank</DisplayName>
      <StoredGasId><TypeId>GasProperties</TypeId><SubtypeId>Hydrogen</SubtypeId></StoredGasId>
    </Definition>
    <Definition xsi:type="MyObjectBuilder_GasTankDefinition">
      <Id><TypeId>OxygenTank</TypeId><SubtypeId>LargeOxygenTank</SubtypeId></Id>
      <DisplayName>Oxygen Tank</DisplayName>
      <StoredGasId><TypeId>GasProperties</TypeId><SubtypeId>Oxygen</SubtypeId></StoredGasId>
    </Definition>
    <Definition xsi:type="MyObjectBuilder_GasTankDefinition">
      <Id><TypeId>OxygenTank</TypeId><SubtypeId>Broken</SubtypeId></Id>
    </Definition>
    <Definition xsi:type="MyObjectBuilder_DoorDefinition">
      <Id><TypeId>Door</TypeId></Id>
    </Definition>
    <Definition>
      <Id><TypeId>CubeBlock</TypeId></Id>
    </Definition>
    <Definition xsi:type="MyObjectBuilder_CargoContainerDefinition">
      <Id><TypeId>CargoContainer</TypeId><SubtypeId>LargeBlockSmallContainer</SubtypeId></Id>
    </Definition>
  </CubeBlocks>
</Definitions>"#;

const ENTITY_COMPONENTS: &str = r#"<?xml version="1.0"?>
<Definitions xmlns:xsi="http://www.w3.org/2001/XMLSchema-instance">
  <EntityComponents>
    <EntityComponent xsi:type="MyObjectBuilder_InventoryComponentDefinition">
      <Id><TypeId>Inventory</TypeId><SubtypeId>LargeBlockLargeContainer</SubtypeId></Id>
      <Size x="3" y="3" z="3"/>
    </EntityComponent>
    <EntityComponent xsi:type="MyObjectBuilder_EntityCapacitorComponentDefinition">
      <Id><TypeId>EntityCapacitor</TypeId><SubtypeId>LargeBlockSmallContainer</SubtypeId></Id>
    </EntityComponent>
    <EntityComponent xsi:type="MyObjectBuilder_InventoryComponentDefinition">
      <Id><TypeId>Inventory</TypeId><SubtypeId>LargeBlockSmallContainer</SubtypeId></Id>
      <Size x="1" y="1" z="1"/>
    </EntityComponent>
    <EntityComponent xsi:type="MyObjectBuilder_EntityCapacitorComponentDefinition">
      <Id><TypeId>EntityCapacitor</TypeId></Id>
    </EntityComponent>
  </EntityComponents>
</Definitions>"#;

fn definitions(doc: &Document) -> Vec<usize> {
    let root = first_child_elem(doc, 0).unwrap();
    let cube_blocks = first_child_elem(doc, root).unwrap();
    children_elems(doc, cube_blocks, "Definition")
}

#[test]
fn grid_size_names() {
    assert_eq!(GridSize::from_name("Small"), Some(GridSize::Small));
    assert_eq!(GridSize::from_name("Large"), Some(GridSize::Large));
    assert_eq!(GridSize::from_name("large"), None);
    assert_eq!(GridSize::Small.name(), "Small");
    assert_eq!(GridSize::Large.name(), "Large");
    assert_eq!(GridSize::default(), GridSize::Small);
    for s in [GridSize::Small, GridSize::Large] {
        assert_eq!(GridSize::from_name(s.name()), Some(s));
    }
}

#[test]
fn thruster_type_names() {
    for t in [ThrusterType::Ion, ThrusterType::Atmospheric, ThrusterType::Hydrogen] {
        assert_eq!(ThrusterType::from_name(t.name()), Some(t));
    }
    assert_eq!(ThrusterType::from_name("Plasma"), None);
}

#[test]
fn grid_size_and_thruster_type_from_definitions() {
    let doc = Document::parse(CUBE_BLOCKS).unwrap();
    let defs = definitions(&doc);
    assert_eq!(GridSize::from_def(&doc, defs[0]), Ok(GridSize::Large));
    assert_eq!(GridSize::from_def(&doc, defs[1]), Ok(GridSize::Small));
    assert_eq!(GridSize::from_def_checked(&doc, defs[2]), Ok(None));
    assert_eq!(GridSize::from_def_checked(&doc, defs[3]), Err(XmlError::StructureFail));
    assert_eq!(GridSize::from_def(&doc, defs[3]), Err(XmlError::StructureFail));
    assert_eq!(ThrusterType::from_def(&doc, defs[1]), Ok(ThrusterType::Ion));
    assert_eq!(ThrusterType::from_def_checked(&doc, defs[2]), Ok(None));
    assert_eq!(ThrusterType::from_def_checked(&doc, defs[0]), Err(XmlError::StructureFail));
}

#[test]
fn block_ids() {
    assert_eq!(format_block_id("BatteryBlock", "LargeBlockBatteryBlock", None), "BatteryBlock.LargeBlockBatteryBlock");
    assert_eq!(format_block_id("Thrust", "SmallThrust", Some(2_123_456_789)), "Thrust.SmallThrust@2123456789");
    assert_eq!(format_block_id("CubeBlock", "", None), "CubeBlock.");
    assert_eq!(format_block_id("A", "B", Some(0)), "A.B@0");
}

#[test]
fn block_identity_from_definitions() {
    let doc = Document::parse(CUBE_BLOCKS).unwrap();
    let defs = definitions(&doc);
    let b = BlockIdentity::from_def(&doc, defs[0], None).unwrap();
    assert_eq!(b.id, "BatteryBlock.LargeBlockBatteryBlock");
    assert_eq!(b.subtype_id, "LargeBlockBatteryBlock");
    assert_eq!(b.name, "DisplayName_Block_Battery");
    let g = BlockIdentity::from_def(&doc, defs[3], Some(42)).unwrap();
    assert_eq!(g.id, "SmallGatlingGun.@42");
    assert_eq!(g.subtype_id, "");
    assert!(matches!(BlockIdentity::from_def(&doc, defs[6], None), Err(XmlError::StructureFail)));
    assert!(matches!(BlockIdentity::from_def(&doc, defs[7], None), Err(XmlError::StructureFail)));
}

#[test]
fn public_definitions() {
    let doc = Document::parse(CUBE_BLOCKS).unwrap();
    let defs = definitions(&doc);
    assert!(is_public(&doc, defs[0]));
    assert!(!is_public(&doc, defs[1]));
    assert!(is_public(&doc, defs[3]));
}

#[test]
fn block_kinds() {
    let doc = Document::parse(CUBE_BLOCKS).unwrap();
    let defs = definitions(&doc);
    assert_eq!(block_kind(&doc, defs[0], "BatteryBlock.LargeBlockBatteryBlock"), Ok(Some(BlockKind::Battery)));
    assert_eq!(block_kind(&doc, defs[1], "Thrust.SmallBlockSmallThrust"), Ok(Some(BlockKind::Thruster)));
    assert_eq!(block_kind(&doc, defs[2], "SmallMissileLauncher.LargeRailgun"), Ok(Some(BlockKind::Railgun)));
    assert_eq!(block_kind(&doc, defs[3], "SmallGatlingGun."), Ok(None));
    assert_eq!(block_kind(&doc, defs[4], "OxygenTank.LargeHydrogenTank"), Ok(Some(BlockKind::HydrogenTank)));
    assert_eq!(block_kind(&doc, defs[5], "OxygenTank.LargeOxygenTank"), Ok(None));
    assert_eq!(block_kind(&doc, defs[6], "OxygenTank.Broken"), Err(XmlError::StructureFail));
    assert_eq!(block_kind(&doc, defs[7], "Door."), Ok(None));
    assert_eq!(block_kind(&doc, defs[8], "CubeBlock."), Ok(None));
    assert_eq!(block_kind(&doc, defs[9], "CargoContainer.LargeBlockSmallContainer"), Ok(Some(BlockKind::Container)));
}

#[test]
fn entity_components_by_type_and_subtype() {
    let doc = Document::parse(ENTITY_COMPONENTS).unwrap();
    let root = first_child_elem(&doc, 0).unwrap();
    let ecs_node = child_elem(&doc, root, "EntityComponents").unwrap();
    let ecs = children_elems(&doc, ecs_node, "EntityComponent");
    let inventory = "MyObjectBuilder_InventoryComponentDefinition";
    let capacitor = "MyObjectBuilder_EntityCapacitorComponentDefinition";
    assert_eq!(find_entity_component(&doc, ecs_node, inventory, "LargeBlockSmallContainer"), Ok(ecs[2]));
    assert_eq!(find_entity_component(&doc, ecs_node, inventory, "LargeBlockLargeContainer"), Ok(ecs[0]));
    assert_eq!(find_entity_component(&doc, ecs_node, capacitor, "LargeBlockSmallContainer"), Ok(ecs[1]));
    assert_eq!(find_entity_component(&doc, ecs_node, inventory, "Nothing"), Err(XmlError::StructureFail));
    assert_eq!(find_entity_component(&doc, ecs_node, capacitor, "Other"), Err(XmlError::StructureFail));
    let found = find_entity_component(&doc, ecs_node, inventory, "LargeBlockSmallContainer").unwrap();
    let id = child_elem(&doc, found, "Id").unwrap();
    assert_eq!(parse_child_elem_string(&doc, id, "TypeId").unwrap(), "Inventory");
}
