use vplugin::error::{IoFailure, VPluginError};
use vplugin::manifest::{
    contains_whitespace, is_identifiable, ManifestFault, ManifestSource, PluginMetadata,
};

fn text(s: &str) -> ManifestSource {
    ManifestSource::Text(s.to_string())
}

fn rejected(e: VPluginError) -> ManifestFault {
    ManifestFault::Rejected(e)
}

#[test]
fn manifest_with_all_fields_loads() {
    let m = PluginMetadata::load(text(
        "[metadata]\nname = \"demo\"\nversion = \"1.0\"\nobjfile = \"lib.obj\"\ndescription = \"A demo\"\n",
    ))
    .unwrap();
    assert_eq!(m.name, "demo");
    assert_eq!(m.version, "1.0");
    assert_eq!(m.objfile, "lib.obj");
    assert_eq!(m.description, Some("A demo".to_string()));
    assert_eq!(m.filename, "metadata.toml");
}

#[test]
fn manifest_without_description_loads() {
    let m = PluginMetadata::load(text(
        "[metadata]\nname = \"demo\"\nversion = \"1.0\"\nobjfile = \"lib.obj\"\n",
    ))
    .unwrap();
    assert_eq!(m.description, None);
    assert_eq!(m.name, "demo");
}

#[test]
fn manifest_as_inline_table_loads() {
    let m = PluginMetadata::load(text(
        "metadata = { name = \"inline\", version = \"2\", objfile = \"p.so\" }\n",
    ))
    .unwrap();
    assert_eq!(m.name, "inline");
    assert_eq!(m.version, "2");
    assert_eq!(m.objfile, "p.so");
}

#[test]
fn manifest_ignores_unknown_keys() {
    let m = PluginMetadata::load(text(
        "title = \"x\"\n[metadata]\nname = \"demo\"\nversion = \"1.0\"\nobjfile = \"lib.obj\"\nauthor = \"me\"\n[other]\nk = 1\n",
    ))
    .unwrap();
    assert_eq!(m.name, "demo");
}

#[test]
fn manifest_with_empty_name_is_unidentifiable() {
    let r = PluginMetadata::load(text(
        "[metadata]\nname = \"\"\nversion = \"1.0\"\nobjfile = \"lib.obj\"\n",
    ));
    assert_eq!(r.unwrap_err(), ManifestFault::Unidentifiable);
}

#[test]
fn manifest_with_space_in_name_is_unidentifiable() {
    let r = PluginMetadata::load(text(
        "[metadata]\nname = \"my plugin\"\nversion = \"1.0\"\nobjfile = \"lib.obj\"\n",
    ));
    assert_eq!(r.unwrap_err(), ManifestFault::Unidentifiable);
}

#[test]
fn manifest_with_tab_in_name_is_unidentifiable() {
    let r = PluginMetadata::load(text(
        "[metadata]\nname = \"my\\tplugin\"\nversion = \"1.0\"\nobjfile = \"lib.obj\"\n",
    ));
    assert_eq!(r.unwrap_err(), ManifestFault::Unidentifiable);
}

#[test]
fn malformed_text_is_a_parameter_error() {
    let r = PluginMetadata::load(text("[metadata\nname = "));
    assert_eq!(r.unwrap_err(), rejected(VPluginError::ParametersError));
}

#[test]
fn manifest_without_metadata_table_is_a_parameter_error() {
    let r = PluginMetadata::load(text("name = \"demo\"\nversion = \"1\"\nobjfile = \"o\"\n"));
    assert_eq!(r.unwrap_err(), rejected(VPluginError::ParametersError));
}

#[test]
fn manifest_with_metadata_of_another_type_is_a_parameter_error() {
    let r = PluginMetadata::load(text("metadata = \"demo\"\n"));
    assert_eq!(r.unwrap_err(), rejected(VPluginError::ParametersError));
}

#[test]
fn manifest_without_name_is_a_parameter_error() {
    let r = PluginMetadata::load(text("[metadata]\nversion = \"1.0\"\nobjfile = \"lib.obj\"\n"));
    assert_eq!(r.unwrap_err(), rejected(VPluginError::ParametersError));
}

#[test]
fn manifest_without_version_is_a_parameter_error() {
    let r = PluginMetadata::load(text("[metadata]\nname = \"demo\"\nobjfile = \"lib.obj\"\n"));
    assert_eq!(r.unwrap_err(), rejected(VPluginError::ParametersError));
}

#[test]
fn manifest_without_objfile_is_a_parameter_error() {
    let r = PluginMetadata::load(text("[metadata]\nname = \"demo\"\nversion = \"1.0\"\n"));
    assert_eq!(r.unwrap_err(), rejected(VPluginError::ParametersError));
}

#[test]
fn manifest_with_numeric_version_is_a_parameter_error() {
    let r = PluginMetadata::load(text(
        "[metadata]\nname = \"demo\"\nversion = 1\nobjfile = \"lib.obj\"\n",
    ));
    assert_eq!(r.unwrap_err(), rejected(VPluginError::ParametersError));
}

#[test]
fn manifest_with_numeric_description_is_a_parameter_error() {
    let r = PluginMetadata::load(text(
        "[metadata]\nname = \"demo\"\nversion = \"1\"\nobjfile = \"lib.obj\"\ndescription = 7\n",
    ));
    assert_eq!(r.unwrap_err(), rejected(VPluginError::ParametersError));
}

#[test]
fn unreadable_manifest_is_a_parameter_error() {
    let r = PluginMetadata::load(ManifestSource::Unreadable);
    assert_eq!(r.unwrap_err(), rejected(VPluginError::ParametersError));
}

#[test]
fn missing_manifest_is_no_such_file() {
    let r = PluginMetadata::load(ManifestSource::Unopened(IoFailure::NotFound));
    assert_eq!(r.unwrap_err(), rejected(VPluginError::NoSuchFile));
}

#[test]
fn forbidden_manifest_is_permission_denied() {
    let r = PluginMetadata::load(ManifestSource::Unopened(IoFailure::PermissionDenied));
    assert_eq!(r.unwrap_err(), rejected(VPluginError::PermissionDenied));
}

#[test]
fn irregular_version_still_loads() {
    let m = PluginMetadata::load(text(
        "[metadata]\nname = \"demo\"\nversion = \"1.0 beta\"\nobjfile = \"lib.obj\"\n",
    ))
    .unwrap();
    assert_eq!(m.version, "1.0 beta");
    assert!(!m.has_regular_version());
    let e = PluginMetadata::load(text(
        "[metadata]\nname = \"demo\"\nversion = \"\"\nobjfile = \"lib.obj\"\n",
    ))
    .unwrap();
    assert!(!e.has_regular_version());
}

#[test]
fn regular_version_is_recognised() {
    let m = PluginMetadata::load(text(
        "[metadata]\nname = \"demo\"\nversion = \"1.0\"\nobjfile = \"lib.obj\"\n",
    ))
    .unwrap();
    assert!(m.has_regular_version());
}

#[test]
fn parse_keeps_an_unidentifiable_name() {
    let m = PluginMetadata::parse(
        "[metadata]\nname = \"a b\"\nversion = \"1.0\"\nobjfile = \"lib.obj\"\n",
    )
    .unwrap();
    assert_eq!(m.name, "a b");
    assert_eq!(
        PluginMetadata::parse("no manifest").unwrap_err(),
        VPluginError::ParametersError
    );
}

#[test]
fn read_from_str_hands_out_the_document() {
    let doc = PluginMetadata::read_from_str(
        "[metadata]\nname = \"demo\"\n[host]\nlevel = 3\n",
    )
    .unwrap();
    assert_eq!(doc.get("host").unwrap().get("level").unwrap().as_integer(), Some(3));
    assert_eq!(doc.get("metadata").unwrap().get("name").unwrap().as_str(), Some("demo"));
    assert!(doc.get("absent").is_none());
}

#[test]
fn read_from_str_rejects_malformed_text() {
    assert_eq!(
        PluginMetadata::read_from_str("a = = 1").unwrap_err(),
        VPluginError::ParametersError
    );
}

#[test]
fn blank_metadata_is_empty() {
    let m = PluginMetadata::blank();
    assert_eq!(m.name, "");
    assert_eq!(m.version, "");
    assert_eq!(m.objfile, "");
    assert_eq!(m.filename, "");
    assert_eq!(m.description, None);
}

#[test]
fn whitespace_is_found_anywhere() {
    assert!(contains_whitespace(" a"));
    assert!(contains_whitespace("a\nb"));
    assert!(contains_whitespace("a\u{00A0}"));
    assert!(contains_whitespace("a\u{2003}b"));
    assert!(contains_whitespace("a\u{3000}b"));
    assert!(!contains_whitespace(""));
    assert!(!contains_whitespace("plugin-name_1.0"));
    assert!(!contains_whitespace("a\u{200B}b"));
}

#[test]
fn whitespace_agrees_with_the_standard_library() {
    let mut buf = [0u8; 4];
    for code in 0u32..0x3100 {
        if let Some(c) = char::from_u32(code) {
            let s: &str = c.encode_utf8(&mut buf);
            assert_eq!(contains_whitespace(s), c.is_whitespace(), "U+{:04X}", code);
        }
    }
}

#[test]
fn names_are_identifiable_or_not() {
    assert!(is_identifiable("demo"));
    assert!(is_identifiable("a/b"));
    assert!(!is_identifiable(""));
    assert!(!is_identifiable("a b"));
    assert!(!is_identifiable("tab\t"));
}
