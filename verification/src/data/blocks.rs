use roxmltree::Document;
use vstd::prelude::*;

use vstd::utf8::encode_utf8;

use crate::text::{bytes_contain, join_texts, decimal_chars, text_contains, text_eq, u64_to_decimal};
use crate::xml::{
    all_with_tag, attribute_ns, attribute_value, child_elem, child_elem_opt, child_text,
    child_with_tag, children_elems, is_node, parse_bool, parse_bool_text,
    parse_child_elem_opt_string, parse_child_elem_string, text, text_or_err, xml_nodes,
    XmlError, XmlNodeModel,
};

verus! {

/// Alias for block identifiers.
pub type BlockId = String;

/// Grid size.
#[derive(Copy, Clone, PartialEq, Eq, Structural, PartialOrd, Ord, Hash, Debug)]
pub enum GridSize {
    Small,
    Large,
}

/// Display name of a grid size.
pub open spec fn grid_size_name(s: GridSize) -> Seq<char> {
    match s {
        GridSize::Small => "Small"@,
        GridSize::Large => "Large"@,
    }
}

impl Default for GridSize {
    fn default() -> (r: Self)
        ensures
            r == GridSize::Small,
    {
        GridSize::Small
    }
}

impl GridSize {
    /// Display name of this grid size.
    pub fn name(&self) -> (r: &'static str)
        ensures
            r@ == grid_size_name(*self),
    {
        match self {
            GridSize::Small => "Small",
            GridSize::Large => "Large",
        }
    }
}

/// Type of thruster.
#[derive(Copy, Clone, PartialEq, Eq, Structural, PartialOrd, Ord, Hash, Debug)]
pub enum ThrusterType {
    Ion,
    Atmospheric,
    Hydrogen,
}

/// Name of a thruster type as block definitions write it.
pub open spec fn thruster_type_name(t: ThrusterType) -> Seq<char> {
    match t {
        ThrusterType::Ion => "Ion"@,
        ThrusterType::Atmospheric => "Atmospheric"@,
        ThrusterType::Hydrogen => "Hydrogen"@,
    }
}

impl ThrusterType {
    /// Name of this thruster type as block definitions write it.
    pub fn name(&self) -> (r: &'static str)
        ensures
            r@ == thruster_type_name(*self),
    {
        match self {
            ThrusterType::Ion => "Ion",
            ThrusterType::Atmospheric => "Atmospheric",
            ThrusterType::Hydrogen => "Hydrogen",
        }
    }
}

/// The grid size that a name denotes.
pub open spec fn grid_size_named(t: Seq<char>) -> Option<GridSize> {
    if t == "Small"@ {
        Some(GridSize::Small)
    } else if t == "Large"@ {
        Some(GridSize::Large)
    } else {
        None
    }
}

/// The thruster type that a name denotes.
pub open spec fn thruster_type_named(t: Seq<char>) -> Option<ThrusterType> {
    if t == "Ion"@ {
        Some(ThrusterType::Ion)
    } else if t == "Atmospheric"@ {
        Some(ThrusterType::Atmospheric)
    } else if t == "Hydrogen"@ {
        Some(ThrusterType::Hydrogen)
    } else {
        None
    }
}

/// The text of the first child element of `def` with tag `tag`, when it has text.
pub open spec fn child_elem_text(nodes: Seq<XmlNodeModel>, def: usize, tag: Seq<char>) -> Option<Seq<char>> {
    match child_with_tag(nodes, def, tag) {
        Some(c) => nodes[c as int].text,
        None => None,
    }
}

/// The first child element of `def` with tag `tag` and its text; a missing one is a structure
/// failure.
fn child_elem_text_or_err<'a>(doc: &'a Document, def: usize, tag: &str) -> (r: Result<&'a str, XmlError>)
    requires
        is_node(doc, def),
    ensures
        match child_elem_text(xml_nodes(*doc), def, tag@) {
            Some(t) => r matches Ok(s) && s@ == t,
            None => r == Err::<&str, XmlError>(XmlError::StructureFail),
        },
{
    let c = match child_elem(doc, def, tag) {
        Ok(c) => c,
        Err(e) => return Err(e),
    };
    text_or_err(doc, c)
}

impl GridSize {
    /// The grid size that a name denotes, if any.
    pub fn from_name(t: &str) -> (r: Option<GridSize>)
        ensures
            r == grid_size_named(t@),
    {
        if text_eq(t, "Small") {
            Some(GridSize::Small)
        } else if text_eq(t, "Large") {
            Some(GridSize::Large)
        } else {
            None
        }
    }

    /// The grid size of a block definition: the text of its `CubeSize` element; a missing
    /// element or text is a structure failure.
    pub fn from_def(doc: &Document, def: usize) -> (r: Result<GridSize, XmlError>)
        requires
            is_node(doc, def),
            child_elem_text(xml_nodes(*doc), def, "CubeSize"@) matches Some(t) ==> grid_size_named(t) is Some,
        ensures
            match child_elem_text(xml_nodes(*doc), def, "CubeSize"@) {
                Some(t) => r == Ok::<GridSize, XmlError>(grid_size_named(t)->0),
                None => r == Err::<GridSize, XmlError>(XmlError::StructureFail),
            },
    {
        match Self::from_def_checked(doc, def) {
            Ok(Some(s)) => Ok(s),
            Ok(None) => Err(XmlError::StructureFail),
            Err(e) => Err(e),
        }
    }

    /// The grid size of a block definition, or none when its `CubeSize` text names no grid size;
    /// a missing element or text is a structure failure.
    pub fn from_def_checked(doc: &Document, def: usize) -> (r: Result<Option<GridSize>, XmlError>)
        requires
            is_node(doc, def),
        ensures
            match child_elem_text(xml_nodes(*doc), def, "CubeSize"@) {
                Some(t) => r == Ok::<Option<GridSize>, XmlError>(grid_size_named(t)),
                None => r == Err::<Option<GridSize>, XmlError>(XmlError::StructureFail),
            },
    {
        match child_elem_text_or_err(doc, def, "CubeSize") {
            Ok(t) => Ok(GridSize::from_name(t)),
            Err(e) => Err(e),
        }
    }
}

impl ThrusterType {
    /// The thruster type that a name denotes, if any.
    pub fn from_name(t: &str) -> (r: Option<ThrusterType>)
        ensures
            r == thruster_type_named(t@),
    {
        if text_eq(t, "Ion") {
            Some(ThrusterType::Ion)
        } else if text_eq(t, "Atmospheric") {
            Some(ThrusterType::Atmospheric)
        } else if text_eq(t, "Hydrogen") {
            Some(ThrusterType::Hydrogen)
        } else {
            None
        }
    }

    /// The thruster type of a thruster definition: the text of its `ThrusterType` element; a
    /// missing element or text is a structure failure.
    pub fn from_def(doc: &Document, def: usize) -> (r: Result<ThrusterType, XmlError>)
        requires
            is_node(doc, def),
            child_elem_text(xml_nodes(*doc), def, "ThrusterType"@) matches Some(t) ==> thruster_type_named(t) is Some,
        ensures
            match child_elem_text(xml_nodes(*doc), def, "ThrusterType"@) {
                Some(t) => r == Ok::<ThrusterType, XmlError>(thruster_type_named(t)->0),
                None => r == Err::<ThrusterType, XmlError>(XmlError::StructureFail),
            },
    {
        match Self::from_def_checked(doc, def) {
            Ok(Some(t)) => Ok(t),
            Ok(None) => Err(XmlError::StructureFail),
            Err(e) => Err(e),
        }
    }

    /// The thruster type of a thruster definition, or none when its `ThrusterType` text names no
    /// thruster type; a missing element or text is a structure failure.
    pub fn from_def_checked(doc: &Document, def: usize) -> (r: Result<Option<ThrusterType>, XmlError>)
        requires
            is_node(doc, def),
        ensures
            match child_elem_text(xml_nodes(*doc), def, "ThrusterType"@) {
                Some(t) => r == Ok::<Option<ThrusterType>, XmlError>(thruster_type_named(t)),
                None => r == Err::<Option<ThrusterType>, XmlError>(XmlError::StructureFail),
            },
    {
        match child_elem_text_or_err(doc, def, "ThrusterType") {
            Ok(t) => Ok(ThrusterType::from_name(t)),
            Err(e) => Err(e),
        }
    }
}

/// A name and a size denote each other.
pub proof fn lemma_grid_size_name_round_trip(s: GridSize, t: Seq<char>)
    ensures
        grid_size_named(grid_size_name(s)) == Some(s),
        grid_size_named(t) matches Some(u) ==> grid_size_name(u) == t,
{
    reveal_strlit("Small");
    reveal_strlit("Large");
    assert("Small"@[0] != "Large"@[0]);
}

/// A name and a thruster type denote each other.
pub proof fn lemma_thruster_type_name_round_trip(ty: ThrusterType, t: Seq<char>)
    ensures
        thruster_type_named(thruster_type_name(ty)) == Some(ty),
        thruster_type_named(t) matches Some(u) ==> thruster_type_name(u) == t,
{
    reveal_strlit("Ion");
    reveal_strlit("Atmospheric");
    reveal_strlit("Hydrogen");
    assert("Ion"@.len() != "Atmospheric"@.len());
    assert("Ion"@.len() != "Hydrogen"@.len());
    assert("Atmospheric"@.len() != "Hydrogen"@.len());
}

/// The id of a block: its type id and subtype id joined by a dot, followed by `@` and the id of
/// the mod that defines it, if any.
pub open spec fn block_id(type_id: Seq<char>, subtype_id: Seq<char>, mod_id: Option<u64>) -> Seq<char> {
    let base = type_id + "."@ + subtype_id;
    match mod_id {
        Some(m) => base + "@"@ + decimal_chars(m as nat),
        None => base,
    }
}

/// The id of a block with the given type id, subtype id and mod.
pub fn format_block_id(type_id: &str, subtype_id: &str, mod_id: Option<u64>) -> (r: BlockId)
    ensures
        r@ == block_id(type_id@, subtype_id@, mod_id),
{
    let with_dot = join_texts(type_id, ".");
    let base = join_texts(with_dot.as_str(), subtype_id);
    match mod_id {
        Some(m) => {
            let with_at = join_texts(base.as_str(), "@");
            let digits = u64_to_decimal(m);
            let r = join_texts(with_at.as_str(), digits.as_str());
            assert(r@ =~= block_id(type_id@, subtype_id@, mod_id));
            r
        },
        None => {
            assert(base@ =~= block_id(type_id@, subtype_id@, mod_id));
            base
        },
    }
}

/// The names of a block as its definition gives them.
#[derive(Debug)]
pub struct BlockIdentity {
    /// The block id.
    pub id: BlockId,
    /// The subtype id of the block (empty when the definition has none).
    pub subtype_id: String,
    /// The display name of the block, not localized.
    pub name: String,
}

/// What the names of a block definition are: the type id and subtype id of its `Id` element and
/// its display name, all trimmed; or why the definition does not give them.
pub open spec fn block_identity_of(nodes: Seq<XmlNodeModel>, def: usize, mod_id: Option<u64>) -> Result<(Seq<char>, Seq<char>, Seq<char>), XmlError> {
    match child_with_tag(nodes, def, "Id"@) {
        None => Err(XmlError::StructureFail),
        Some(id_node) => match child_text(nodes, id_node, "TypeId"@) {
            None => Err(XmlError::StructureFail),
            Some(type_id) => {
                let subtype_id = match child_text(nodes, id_node, "SubtypeId"@) {
                    Some(s) => s,
                    None => Seq::<char>::empty(),
                };
                match child_text(nodes, def, "DisplayName"@) {
                    None => Err(XmlError::StructureFail),
                    Some(name) => Ok((block_id(type_id, subtype_id, mod_id), subtype_id, name)),
                }
            },
        },
    }
}

impl BlockIdentity {
    /// Reads the names of the block definition `def` of the mod `mod_id` (none for the game's own
    /// blocks).
    pub fn from_def(doc: &Document, def: usize, mod_id: Option<u64>) -> (r: Result<BlockIdentity, XmlError>)
        requires
            is_node(doc, def),
        ensures
            match block_identity_of(xml_nodes(*doc), def, mod_id) {
                Ok((id, subtype_id, name)) => r matches Ok(b) && b.id@ == id && b.subtype_id@
                    == subtype_id && b.name@ == name,
                Err(e) => r matches Err(f) && f == e,
            },
    {
        let id_node = match child_elem(doc, def, "Id") {
            Ok(n) => n,
            Err(e) => return Err(e),
        };
        let type_id = match parse_child_elem_string(doc, id_node, "TypeId") {
            Ok(t) => t,
            Err(e) => return Err(e),
        };
        let subtype_id = match parse_child_elem_opt_string(doc, id_node, "SubtypeId") {
            Some(s) => s,
            None => String::new(),
        };
        let id = format_block_id(type_id.as_str(), subtype_id.as_str(), mod_id);
        let name = match parse_child_elem_string(doc, def, "DisplayName") {
            Ok(n) => n,
            Err(e) => return Err(e),
        };
        Ok(BlockIdentity { id, subtype_id, name })
    }
}

/// Whether a block definition is public: unless its first `Public` element has the text `false`
/// (text that is no boolean counts as public).
pub open spec fn block_public(nodes: Seq<XmlNodeModel>, def: usize) -> bool {
    match child_with_tag(nodes, def, "Public"@) {
        Some(p) => match nodes[p as int].text {
            Some(t) => match parse_bool(t) {
                Some(b) => b,
                None => true,
            },
            None => true,
        },
        None => true,
    }
}

/// Whether the block definition `def` is public.
pub fn is_public(doc: &Document, def: usize) -> (r: bool)
    requires
        is_node(doc, def),
    ensures
        r == block_public(xml_nodes(*doc), def),
{
    match child_elem_opt(doc, def, "Public") {
        Some(p) => match text(doc, p) {
            Some(t) => match parse_bool_text(t) {
                Some(b) => b,
                None => true,
            },
            None => true,
        },
        None => true,
    }
}

/// The namespace of the `type` attribute that names the kind of a definition.
pub const SCHEMA_INSTANCE_NAMESPACE: &'static str = "http://www.w3.org/2001/XMLSchema-instance";

/// The kind of a definition: the value of its `type` attribute in the schema instance namespace.
pub open spec fn definition_type(nodes: Seq<XmlNodeModel>, def: usize) -> Option<Seq<char>> {
    attribute_value(
        nodes[def as int].attributes,
        Some("http://www.w3.org/2001/XMLSchema-instance"@),
        "type"@,
    )
}

/// The kinds of blocks whose details are read from block definitions.
#[derive(Copy, Clone, PartialEq, Eq, Structural, Debug)]
pub enum BlockKind {
    Battery,
    JumpDrive,
    Railgun,
    Thruster,
    WheelSuspension,
    HydrogenEngine,
    Reactor,
    Generator,
    HydrogenTank,
    Container,
    Connector,
    Cockpit,
    Drill,
}

/// The block kind that a definition type names by itself, with no further look at the
/// definition.
pub open spec fn kind_of_definition_type(ty: Seq<char>) -> Option<BlockKind> {
    if ty == "MyObjectBuilder_BatteryBlockDefinition"@ {
        Some(BlockKind::Battery)
    } else if ty == "MyObjectBuilder_JumpDriveDefinition"@ {
        Some(BlockKind::JumpDrive)
    } else if ty == "MyObjectBuilder_ThrustDefinition"@ {
        Some(BlockKind::Thruster)
    } else if ty == "MyObjectBuilder_MotorSuspensionDefinition"@ {
        Some(BlockKind::WheelSuspension)
    } else if ty == "MyObjectBuilder_HydrogenEngineDefinition"@ {
        Some(BlockKind::HydrogenEngine)
    } else if ty == "MyObjectBuilder_ReactorDefinition"@ {
        Some(BlockKind::Reactor)
    } else if ty == "MyObjectBuilder_OxygenGeneratorDefinition"@ {
        Some(BlockKind::Generator)
    } else if ty == "MyObjectBuilder_CargoContainerDefinition"@ {
        Some(BlockKind::Container)
    } else if ty == "MyObjectBuilder_ShipConnectorDefinition"@ {
        Some(BlockKind::Connector)
    } else if ty == "MyObjectBuilder_CockpitDefinition"@ {
        Some(BlockKind::Cockpit)
    } else if ty == "MyObjectBuilder_ShipDrillDefinition"@ {
        Some(BlockKind::Drill)
    } else {
        None
    }
}

/// The kind of the block that the definition `def` with block id `id` defines, or none when the
/// calculator does not use it: weapons count only as railguns, when their id contains
/// `Railgun`; gas tanks only as hydrogen tanks, when the subtype id of their `StoredGasId` is
/// `Hydrogen` (a gas tank without one is a structure failure).
pub open spec fn block_kind_of(nodes: Seq<XmlNodeModel>, def: usize, id: Seq<char>) -> Result<Option<BlockKind>, XmlError> {
    match definition_type(nodes, def) {
        None => Ok(None),
        Some(ty) => if ty == "MyObjectBuilder_WeaponBlockDefinition"@ {
            if bytes_contain(encode_utf8(id), encode_utf8("Railgun"@)) {
                Ok(Some(BlockKind::Railgun))
            } else {
                Ok(None)
            }
        } else if ty == "MyObjectBuilder_GasTankDefinition"@ {
            match child_with_tag(nodes, def, "StoredGasId"@) {
                None => Err(XmlError::StructureFail),
                Some(g) => match child_text(nodes, g, "SubtypeId"@) {
                    None => Err(XmlError::StructureFail),
                    Some(gas) => if gas == "Hydrogen"@ {
                        Ok(Some(BlockKind::HydrogenTank))
                    } else {
                        Ok(None)
                    },
                },
            }
        } else {
            Ok(kind_of_definition_type(ty))
        },
    }
}

/// The block kind that a definition type names by itself.
fn kind_of_type(ty: &str) -> (r: Option<BlockKind>)
    ensures
        r == kind_of_definition_type(ty@),
{
    if text_eq(ty, "MyObjectBuilder_BatteryBlockDefinition") {
        Some(BlockKind::Battery)
    } else if text_eq(ty, "MyObjectBuilder_JumpDriveDefinition") {
        Some(BlockKind::JumpDrive)
    } else if text_eq(ty, "MyObjectBuilder_ThrustDefinition") {
        Some(BlockKind::Thruster)
    } else if text_eq(ty, "MyObjectBuilder_MotorSuspensionDefinition") {
        Some(BlockKind::WheelSuspension)
    } else if text_eq(ty, "MyObjectBuilder_HydrogenEngineDefinition") {
        Some(BlockKind::HydrogenEngine)
    } else if text_eq(ty, "MyObjectBuilder_ReactorDefinition") {
        Some(BlockKind::Reactor)
    } else if text_eq(ty, "MyObjectBuilder_OxygenGeneratorDefinition") {
        Some(BlockKind::Generator)
    } else if text_eq(ty, "MyObjectBuilder_CargoContainerDefinition") {
        Some(BlockKind::Container)
    } else if text_eq(ty, "MyObjectBuilder_ShipConnectorDefinition") {
        Some(BlockKind::Connector)
    } else if text_eq(ty, "MyObjectBuilder_CockpitDefinition") {
        Some(BlockKind::Cockpit)
    } else if text_eq(ty, "MyObjectBuilder_ShipDrillDefinition") {
        Some(BlockKind::Drill)
    } else {
        None
    }
}

/// Every definition whose type names a block kind by itself defines a block of that kind, whatever
/// its id: a battery definition a battery, a jump drive definition a jump drive, a thrust
/// definition a thruster, a motor suspension definition a wheel suspension, a hydrogen engine
/// definition a hydrogen engine, a reactor definition a reactor, an oxygen generator definition a
/// generator, a cargo container definition a container, a ship connector definition a connector,
/// a cockpit definition a cockpit and a ship drill definition a drill. So none of these
/// definitions is passed over, and no two of these types give the same kind. A weapon definition
/// is a railgun exactly when its id contains `Railgun`, a gas tank whose stored gas is hydrogen is
/// a hydrogen tank, and a definition without a type is not used.
pub proof fn lemma_definition_types_name_their_kinds(nodes: Seq<XmlNodeModel>, def: usize, id: Seq<char>)
    ensures
        definition_type(nodes, def) is None ==> block_kind_of(nodes, def, id) == Ok::<
            Option<BlockKind>,
            XmlError,
        >(None),
        definition_type(nodes, def) == Some("MyObjectBuilder_WeaponBlockDefinition"@) ==> (block_kind_of(
            nodes,
            def,
            id,
        ) == Ok::<Option<BlockKind>, XmlError>(Some(BlockKind::Railgun)) <==> bytes_contain(
            encode_utf8(id),
            encode_utf8("Railgun"@),
        )),
        forall|g: usize|
            definition_type(nodes, def) == Some("MyObjectBuilder_GasTankDefinition"@)
                && child_with_tag(nodes, def, "StoredGasId"@) == Some(g) && #[trigger] child_text(
                nodes,
                g,
                "SubtypeId"@,
            ) == Some("Hydrogen"@) ==> block_kind_of(nodes, def, id) == Ok::<
                Option<BlockKind>,
                XmlError,
            >(Some(BlockKind::HydrogenTank)),
        definition_type(nodes, def) == Some("MyObjectBuilder_BatteryBlockDefinition"@) ==> block_kind_of(
            nodes,
            def,
            id,
        ) == Ok::<Option<BlockKind>, XmlError>(Some(BlockKind::Battery)),
        definition_type(nodes, def) == Some("MyObjectBuilder_JumpDriveDefinition"@) ==> block_kind_of(
            nodes,
            def,
            id,
        ) == Ok::<Option<BlockKind>, XmlError>(Some(BlockKind::JumpDrive)),
        definition_type(nodes, def) == Some("MyObjectBuilder_ThrustDefinition"@) ==> block_kind_of(
            nodes,
            def,
            id,
        ) == Ok::<Option<BlockKind>, XmlError>(Some(BlockKind::Thruster)),
        definition_type(nodes, def) == Some("MyObjectBuilder_MotorSuspensionDefinition"@) ==> block_kind_of(
            nodes,
            def,
            id,
        ) == Ok::<Option<BlockKind>, XmlError>(Some(BlockKind::WheelSuspension)),
        definition_type(nodes, def) == Some("MyObjectBuilder_HydrogenEngineDefinition"@) ==> block_kind_of(
            nodes,
            def,
            id,
        ) == Ok::<Option<BlockKind>, XmlError>(Some(BlockKind::HydrogenEngine)),
        definition_type(nodes, def) == Some("MyObjectBuilder_ReactorDefinition"@) ==> block_kind_of(
            nodes,
            def,
            id,
        ) == Ok::<Option<BlockKind>, XmlError>(Some(BlockKind::Reactor)),
        definition_type(nodes, def) == Some("MyObjectBuilder_OxygenGeneratorDefinition"@) ==> block_kind_of(
            nodes,
            def,
            id,
        ) == Ok::<Option<BlockKind>, XmlError>(Some(BlockKind::Generator)),
        definition_type(nodes, def) == Some("MyObjectBuilder_CargoContainerDefinition"@) ==> block_kind_of(
            nodes,
            def,
            id,
        ) == Ok::<Option<BlockKind>, XmlError>(Some(BlockKind::Container)),
        definition_type(nodes, def) == Some("MyObjectBuilder_ShipConnectorDefinition"@) ==> block_kind_of(
            nodes,
            def,
            id,
        ) == Ok::<Option<BlockKind>, XmlError>(Some(BlockKind::Connector)),
        definition_type(nodes, def) == Some("MyObjectBuilder_CockpitDefinition"@) ==> block_kind_of(
            nodes,
            def,
            id,
        ) == Ok::<Option<BlockKind>, XmlError>(Some(BlockKind::Cockpit)),
        definition_type(nodes, def) == Some("MyObjectBuilder_ShipDrillDefinition"@) ==> block_kind_of(
            nodes,
            def,
            id,
        ) == Ok::<Option<BlockKind>, XmlError>(Some(BlockKind::Drill)),
{
    reveal_strlit("MyObjectBuilder_BatteryBlockDefinition");
    reveal_strlit("MyObjectBuilder_JumpDriveDefinition");
    reveal_strlit("MyObjectBuilder_ThrustDefinition");
    reveal_strlit("MyObjectBuilder_MotorSuspensionDefinition");
    reveal_strlit("MyObjectBuilder_HydrogenEngineDefinition");
    reveal_strlit("MyObjectBuilder_ReactorDefinition");
    reveal_strlit("MyObjectBuilder_OxygenGeneratorDefinition");
    reveal_strlit("MyObjectBuilder_CargoContainerDefinition");
    reveal_strlit("MyObjectBuilder_ShipConnectorDefinition");
    reveal_strlit("MyObjectBuilder_CockpitDefinition");
    reveal_strlit("MyObjectBuilder_ShipDrillDefinition");
    reveal_strlit("MyObjectBuilder_WeaponBlockDefinition");
    reveal_strlit("MyObjectBuilder_GasTankDefinition");
    assert("MyObjectBuilder_BatteryBlockDefinition"@.len() == 38);
    assert("MyObjectBuilder_BatteryBlockDefinition"@[16] == 'B');
    assert("MyObjectBuilder_JumpDriveDefinition"@.len() == 35);
    assert("MyObjectBuilder_JumpDriveDefinition"@[16] == 'J');
    assert("MyObjectBuilder_ThrustDefinition"@.len() == 32);
    assert("MyObjectBuilder_ThrustDefinition"@[16] == 'T');
    assert("MyObjectBuilder_MotorSuspensionDefinition"@.len() == 41);
    assert("MyObjectBuilder_MotorSuspensionDefinition"@[16] == 'M');
    assert("MyObjectBuilder_HydrogenEngineDefinition"@.len() == 40);
    assert("MyObjectBuilder_HydrogenEngineDefinition"@[16] == 'H');
    assert("MyObjectBuilder_ReactorDefinition"@.len() == 33);
    assert("MyObjectBuilder_ReactorDefinition"@[16] == 'R');
    assert("MyObjectBuilder_OxygenGeneratorDefinition"@.len() == 41);
    assert("MyObjectBuilder_OxygenGeneratorDefinition"@[16] == 'O');
    assert("MyObjectBuilder_CargoContainerDefinition"@.len() == 40);
    assert("MyObjectBuilder_CargoContainerDefinition"@[16] == 'C');
    assert("MyObjectBuilder_ShipConnectorDefinition"@.len() == 39);
    assert("MyObjectBuilder_ShipConnectorDefinition"@[16] == 'S');
    assert("MyObjectBuilder_CockpitDefinition"@.len() == 33);
    assert("MyObjectBuilder_CockpitDefinition"@[16] == 'C');
    assert("MyObjectBuilder_ShipDrillDefinition"@.len() == 35);
    assert("MyObjectBuilder_ShipDrillDefinition"@[16] == 'S');
    assert("MyObjectBuilder_WeaponBlockDefinition"@.len() == 37);
    assert("MyObjectBuilder_WeaponBlockDefinition"@[16] == 'W');
    assert("MyObjectBuilder_GasTankDefinition"@.len() == 33);
    assert("MyObjectBuilder_GasTankDefinition"@[16] == 'G');
}

/// The kind of the block that the definition `def`, whose block id is `id`, defines; none when
/// the calculator does not use it.
pub fn block_kind(doc: &Document, def: usize, id: &str) -> (r: Result<Option<BlockKind>, XmlError>)
    requires
        is_node(doc, def),
    ensures
        r == block_kind_of(xml_nodes(*doc), def, id@),
{
    let ty = match attribute_ns(doc, def, SCHEMA_INSTANCE_NAMESPACE, "type") {
        Some(t) => t,
        None => return Ok(None),
    };
    if text_eq(ty, "MyObjectBuilder_WeaponBlockDefinition") {
        if text_contains(id, "Railgun") {
            Ok(Some(BlockKind::Railgun))
        } else {
            Ok(None)
        }
    } else if text_eq(ty, "MyObjectBuilder_GasTankDefinition") {
        let gas_node = match child_elem(doc, def, "StoredGasId") {
            Ok(g) => g,
            Err(e) => return Err(e),
        };
        let gas = match parse_child_elem_string(doc, gas_node, "SubtypeId") {
            Ok(g) => g,
            Err(e) => return Err(e),
        };
        if text_eq(gas.as_str(), "Hydrogen") {
            Ok(Some(BlockKind::HydrogenTank))
        } else {
            Ok(None)
        }
    } else {
        Ok(kind_of_type(ty))
    }
}

/// The first of the entity components `ecs` whose type is `component_type` and whose `Id` has
/// the subtype id `subtype_id`; a component of that type without an `Id` with a subtype id is a
/// structure failure.
pub open spec fn entity_component_in(
    nodes: Seq<XmlNodeModel>,
    ecs: Seq<usize>,
    component_type: Seq<char>,
    subtype_id: Seq<char>,
) -> Result<Option<usize>, XmlError>
    decreases ecs.len(),
{
    if ecs.len() == 0 {
        Ok(None)
    } else if definition_type(nodes, ecs[0]) == Some(component_type) {
        match child_with_tag(nodes, ecs[0], "Id"@) {
            None => Err(XmlError::StructureFail),
            Some(id_node) => match child_text(nodes, id_node, "SubtypeId"@) {
                None => Err(XmlError::StructureFail),
                Some(s) => if s == subtype_id {
                    Ok(Some(ecs[0]))
                } else {
                    entity_component_in(nodes, ecs.drop_first(), component_type, subtype_id)
                },
            },
        }
    } else {
        entity_component_in(nodes, ecs.drop_first(), component_type, subtype_id)
    }
}

/// An entity component that the search finds is one of the searched components, has the asked
/// type, and its `Id` has the asked subtype id.
pub proof fn lemma_entity_component_in_matches(
    nodes: Seq<XmlNodeModel>,
    ecs: Seq<usize>,
    component_type: Seq<char>,
    subtype_id: Seq<char>,
)
    ensures
        entity_component_in(nodes, ecs, component_type, subtype_id) matches Ok(Some(e)) ==> {
            &&& ecs.contains(e)
            &&& definition_type(nodes, e) == Some(component_type)
            &&& child_with_tag(nodes, e, "Id"@) matches Some(id_node) && child_text(
                nodes,
                id_node,
                "SubtypeId"@,
            ) == Some(subtype_id)
        },
    decreases ecs.len(),
{
    if ecs.len() > 0 {
        lemma_entity_component_in_matches(nodes, ecs.drop_first(), component_type, subtype_id);
        if let Ok(Some(e)) = entity_component_in(nodes, ecs, component_type, subtype_id) {
            if e != ecs[0] || !(definition_type(nodes, ecs[0]) == Some(component_type)) {
                let k = choose|k: int| 0 <= k < ecs.drop_first().len() && ecs.drop_first()[k] == e;
                assert(ecs[k + 1] == e);
            } else {
                assert(ecs[0] == e);
            }
        }
    }
}

/// The `EntityComponent` child of `entity_components` with type `component_type` and subtype id
/// `subtype_id`; none is a structure failure.
pub open spec fn entity_component_of(
    nodes: Seq<XmlNodeModel>,
    entity_components: usize,
    component_type: Seq<char>,
    subtype_id: Seq<char>,
) -> Result<usize, XmlError> {
    let ecs = all_with_tag(nodes, nodes[entity_components as int].children, "EntityComponent"@);
    match entity_component_in(nodes, ecs, component_type, subtype_id) {
        Ok(Some(e)) => Ok(e),
        Ok(None) => Err(XmlError::StructureFail),
        Err(e) => Err(e),
    }
}

/// Finds the entity component of type `component_type` (such as the inventory of a cargo
/// container or the capacitor of a railgun) that belongs to the block with subtype id
/// `subtype_id`.
pub fn find_entity_component(
    doc: &Document,
    entity_components: usize,
    component_type: &str,
    subtype_id: &str,
) -> (r: Result<usize, XmlError>)
    requires
        is_node(doc, entity_components),
    ensures
        r == entity_component_of(xml_nodes(*doc), entity_components, component_type@, subtype_id@),
        r matches Ok(e) ==> is_node(doc, e),
{
    let ghost nodes = xml_nodes(*doc);
    let ecs = children_elems(doc, entity_components, "EntityComponent");
    let ghost all = ecs@;
    let mut i: usize = 0;
    assert(all.subrange(0, all.len() as int) =~= all);
    while i < ecs.len()
        invariant
            nodes == xml_nodes(*doc),
            is_node(doc, entity_components),
            all == ecs@,
            all == all_with_tag(nodes, nodes[entity_components as int].children, "EntityComponent"@),
            forall|k: int| 0 <= k < all.len() ==> is_node(doc, #[trigger] all[k]),
            i <= all.len(),
            entity_component_in(nodes, all, component_type@, subtype_id@) == entity_component_in(
                nodes,
                all.subrange(i as int, all.len() as int),
                component_type@,
                subtype_id@,
            ),
        decreases all.len() - i,
    {
        let e = ecs[i];
        let ghost rest = all.subrange(i as int, all.len() as int);
        assert(rest[0] == e);
        assert(rest.drop_first() =~= all.subrange(i + 1, all.len() as int));
        let ty = attribute_ns(doc, e, SCHEMA_INSTANCE_NAMESPACE, "type");
        let matches_type = match ty {
            Some(t) => text_eq(t, component_type),
            None => false,
        };
        if matches_type {
            let id_node = match child_elem(doc, e, "Id") {
                Ok(n) => n,
                Err(err) => return Err(err),
            };
            let s = match parse_child_elem_string(doc, id_node, "SubtypeId") {
                Ok(s) => s,
                Err(err) => return Err(err),
            };
            if text_eq(s.as_str(), subtype_id) {
                return Ok(e);
            }
        }
        i = i + 1;
    }
    assert(all.subrange(i as int, all.len() as int) =~= Seq::<usize>::empty());
    Err(XmlError::StructureFail)
}

} // verus!
