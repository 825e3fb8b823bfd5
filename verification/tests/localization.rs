use linked_hash_map::LinkedHashMap;
use secalc_core::data::localization::{display_name, Localization, LocalizationBuilder, LocalizationError};
use secalc_core::xml::XmlError;

fn localization(pairs: &[(&str, &str)]) -> Localization {
    let mut map = LinkedHashMap::new();
    for (k, v) in pairs {
        map.insert(k.to_string(), v.to_string());
    }
    Localization { localization: map }
}

#[test]
fn localized_names() {
    let l = localization(&[("DisplayName_Block_Battery", "Battery"), ("ModBattery", "Mod Battery")]);
    assert_eq!(l.get("DisplayName_Block_Battery"), "Battery");
    assert_eq!(l.get("{LOC:ModBattery}"), "Mod Battery");
    assert_eq!(l.get("{LOC:Unknown}"), "{LOC:Unknown}");
    assert_eq!(l.get("Plain Name"), "Plain Name");
    assert_eq!(l.get("short"), "short");
    assert_eq!(l.get(""), "");
}

#[test]
fn localized_names_cut_inner_key_by_bytes() {
    let l = localization(&[("ab", "inner")]);
    // Bytes 5 up to the last byte: "xxxx-ab!" has inner key "ab".
    assert_eq!(l.get("xxxx-ab!"), "inner");
    assert_eq!(l.get_checked("xxxx-ab!"), Some("inner"));
    // The cut would fall inside the two-byte character 'é'.
    assert_eq!(l.get_checked("xxxxé-ab!"), None);
    assert_eq!(l.get_checked("xxxx-abé"), None);
    assert_eq!(l.get_checked("short"), Some("short"));
}

#[test]
fn display_names_prefer_rename() {
    let l = localization(&[("DisplayName_Block_WheelSuspension3x3Left", "Wheel Suspension 3x3 Left")]);
    assert_eq!(display_name(&l, "DisplayName_Block_WheelSuspension3x3Left", Some("Wheel Suspension 3x3")), Some("Wheel Suspension 3x3"));
    assert_eq!(display_name(&l, "DisplayName_Block_WheelSuspension3x3Left", None), Some("Wheel Suspension 3x3 Left"));
    assert_eq!(display_name(&l, "Other", None), Some("Other"));
    assert_eq!(display_name(&l, "xxxxé-ab!", None), None);
    assert_eq!(display_name(&l, "xxxxé-ab!", Some("Renamed")), Some("Renamed"));
}

const RESX: &str = r#"<?xml version="1.0" encoding="utf-8"?>
<root>
  <data name="DisplayName_Block_Battery" xml:space="preserve"><value>Battery</value></data>
  <data name="DisplayName_Block_Reactor"><value>Large Reactor</value></data>
  <data><value>No name</value></data>
  <data name="NoValue"></data>
  <data name="EmptyValue"><value></value></data>
  <other name="Ignored"><value>x</value></other>
  <data name="DisplayName_Block_Battery"><value>Battery (new)</value></data>
</root>"#;

#[test]
fn resx_texts_are_collected_in_order() {
    let mut b = LocalizationBuilder::default();
    b.update_from_resx_text(RESX).unwrap();
    let l = b.into_localization();
    let entries: Vec<(String, String)> = l.localization.iter().map(|(k, v)| (k.clone(), v.clone())).collect();
    assert_eq!(
        entries,
        vec![
            ("DisplayName_Block_Reactor".to_string(), "Large Reactor".to_string()),
            ("DisplayName_Block_Battery".to_string(), "Battery (new)".to_string()),
        ]
    );
}

#[test]
fn resx_errors_leave_texts_unchanged() {
    let mut b = LocalizationBuilder::default();
    b.update_from_resx_text("<root><data name=\"a\"><value>A</value></data></root>").unwrap();
    assert!(matches!(b.update_from_resx_text("<root><data></root>"), Err(LocalizationError::ParseFileFail(_))));
    assert_eq!(b.localization.len(), 1);
    assert_eq!(b.localization.get("a").map(String::as_str), Some("A"));
}

fn sbl(language: &str, default: &str) -> String {
    format!(
        "<?xml version=\"1.0\"?><MyObjectBuilder_Localization><Id><TypeId>x</TypeId></Id><Context>Mod</Context><Language>{}</Language><Default>{}</Default><ResXName>MyTexts.{}.resx</ResXName></MyObjectBuilder_Localization>",
        language, default, language
    )
}

#[test]
fn sbl_names_english_or_default_resource() {
    assert_eq!(LocalizationBuilder::sbl_resx_name(&sbl("en-US", "false")).unwrap(), Some("MyTexts.en-US.resx".to_string()));
    assert_eq!(LocalizationBuilder::sbl_resx_name(&sbl("de-DE", "true")).unwrap(), Some("MyTexts.de-DE.resx".to_string()));
    assert_eq!(LocalizationBuilder::sbl_resx_name(&sbl("de-DE", "false")).unwrap(), None);
}

#[test]
fn sbl_errors() {
    assert!(matches!(
        LocalizationBuilder::sbl_resx_name(&sbl("de-DE", "yes")),
        Err(LocalizationError::XmlFail(XmlError::ParseTextFail))
    ));
    assert!(matches!(
        LocalizationBuilder::sbl_resx_name("<Localization><Language>en-US</Language></Localization>"),
        Err(LocalizationError::XmlFail(XmlError::StructureFail))
    ));
    assert!(matches!(LocalizationBuilder::sbl_resx_name("not xml"), Err(LocalizationError::ParseFileFail(_))));
}

#[test]
fn default_localization_is_empty() {
    let l = Localization::default();
    assert_eq!(l.localization.len(), 0);
    assert_eq!(l.get("DisplayName_Block_Battery"), "DisplayName_Block_Battery");
}
