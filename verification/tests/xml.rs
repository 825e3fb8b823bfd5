use roxmltree::Document;
use secalc_core::xml::{
    parse_document_element, DocumentError,
    attribute, attribute_ns, child_elem, child_elem_opt, children_elems, first_child_elem, first_element_child,
    parse_attribute_string, parse_bool_text, parse_child_elem_bool, parse_child_elem_opt_bool,
    parse_child_elem_opt_string, parse_child_elem_string, text, text_or_err, XmlError,
};

const DOC: &str = r#"<?xml version="1.0"?>
<Definitions xmlns:xsi="http://www.w3.org/2001/XMLSchema-instance">
  <Definition xsi:type="MyObjectBuilder_BatteryBlockDefinition" name="first">
    <Id>
      <TypeId>BatteryBlock</TypeId>
      <SubtypeId>  LargeBlockBatteryBlock  </SubtypeId>
    </Id>
    <Empty></Empty>
    <Public>false</Public>
    <Flag>maybe</Flag>
  </Definition>
  <Other/>
  <Definition name="second"/>
</Definitions>"#;

#[test]
fn navigates_children() {
    let doc = Document::parse(DOC).unwrap();
    let root = first_child_elem(&doc, 0).unwrap();
    assert_eq!(first_element_child(&doc, 0), Some(root));
    let defs = children_elems(&doc, root, "Definition");
    assert_eq!(defs.len(), 2);
    assert_eq!(attribute(&doc, defs[0], "name"), Some("first"));
    assert_eq!(attribute(&doc, defs[1], "name"), Some("second"));
    assert_eq!(child_elem(&doc, root, "Definition"), Ok(defs[0]));
    assert_eq!(child_elem_opt(&doc, root, "Other").is_some(), true);
    assert_eq!(child_elem(&doc, root, "Missing"), Err(XmlError::StructureFail));
    assert_eq!(child_elem_opt(&doc, root, "Missing"), None);
    assert_eq!(first_child_elem(&doc, defs[1]), Err(XmlError::StructureFail));
}

#[test]
fn reads_text_trimmed() {
    let doc = Document::parse(DOC).unwrap();
    let root = first_child_elem(&doc, 0).unwrap();
    let def = child_elem(&doc, root, "Definition").unwrap();
    let id = child_elem(&doc, def, "Id").unwrap();
    assert_eq!(parse_child_elem_string(&doc, id, "TypeId").unwrap(), "BatteryBlock");
    assert_eq!(parse_child_elem_string(&doc, id, "SubtypeId").unwrap(), "LargeBlockBatteryBlock");
    assert_eq!(parse_child_elem_opt_string(&doc, id, "Nothing"), None);
    assert!(matches!(parse_child_elem_string(&doc, id, "Nothing"), Err(XmlError::StructureFail)));
    let empty = child_elem(&doc, def, "Empty").unwrap();
    assert_eq!(text(&doc, empty), None);
    assert_eq!(text_or_err(&doc, empty), Err(XmlError::StructureFail));
    let type_id = child_elem(&doc, id, "TypeId").unwrap();
    assert_eq!(text(&doc, type_id), Some("BatteryBlock"));
}

#[test]
fn reads_booleans() {
    let doc = Document::parse(DOC).unwrap();
    let root = first_child_elem(&doc, 0).unwrap();
    let def = child_elem(&doc, root, "Definition").unwrap();
    assert_eq!(parse_child_elem_bool(&doc, def, "Public"), Ok(false));
    assert_eq!(parse_child_elem_opt_bool(&doc, def, "Public"), Ok(Some(false)));
    assert_eq!(parse_child_elem_opt_bool(&doc, def, "Missing"), Ok(None));
    assert_eq!(parse_child_elem_bool(&doc, def, "Missing"), Err(XmlError::StructureFail));
    assert_eq!(parse_child_elem_bool(&doc, def, "Flag"), Err(XmlError::ParseTextFail));
    assert_eq!(parse_bool_text("true"), Some(true));
    assert_eq!(parse_bool_text("false"), Some(false));
    assert_eq!(parse_bool_text("True"), None);
}

#[test]
fn reads_attributes_with_namespace() {
    let doc = Document::parse(DOC).unwrap();
    let root = first_child_elem(&doc, 0).unwrap();
    let def = child_elem(&doc, root, "Definition").unwrap();
    assert_eq!(
        attribute_ns(&doc, def, "http://www.w3.org/2001/XMLSchema-instance", "type"),
        Some("MyObjectBuilder_BatteryBlockDefinition")
    );
    assert_eq!(attribute_ns(&doc, def, "urn:other", "type"), None);
    assert_eq!(attribute(&doc, def, "type"), Some("MyObjectBuilder_BatteryBlockDefinition"));
    assert_eq!(parse_attribute_string(&doc, def, "name").unwrap(), "first");
    assert!(matches!(parse_attribute_string(&doc, def, "nope"), Err(XmlError::StructureFail)));
}

#[test]
fn rejects_malformed_xml() {
    assert!(Document::parse("<a><b></a>").is_err());
    assert!(Document::parse("").is_err());
}

#[test]
fn error_messages() {
    assert_eq!(XmlError::StructureFail.message(), "Unexpected XML structure");
    assert_eq!(XmlError::ParseTextFail.message(), "Could not parse text or attribute of an XML element");
}

#[test]
fn document_elements() {
    let (doc, root) = parse_document_element(DOC).unwrap();
    assert_eq!(children_elems(&doc, root, "Definition").len(), 2);
    assert_eq!(first_child_elem(&doc, 0), Ok(root));
    assert!(matches!(parse_document_element("<a><b></a>"), Err(DocumentError::ParseFail(_))));
    assert!(matches!(parse_document_element("<!-- only a comment -->"), Err(DocumentError::ParseFail(_)) | Err(DocumentError::XmlFail(XmlError::StructureFail))));
}
