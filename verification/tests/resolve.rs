use pkg_server::manifest::{Manifest, ManifestError};
use pkg_server::resolver::resolve;

const DEMO: &str = "[demo.v1]\npath = \"blobs/demo-v1.bin\"\n";

fn demo() -> Manifest {
    match Manifest::parse(DEMO) {
        Ok(m) => m,
        Err(_) => panic!("the demo manifest is valid TOML"),
    }
}

#[test]
fn resolves_known_name_and_tag() {
    assert_eq!(resolve(&demo(), "demo", "v1"), Some("blobs/demo-v1.bin".to_string()));
}

#[test]
fn unknown_tag_is_not_found() {
    assert_eq!(resolve(&demo(), "demo", "v2"), None);
}

#[test]
fn unknown_name_is_not_found() {
    assert_eq!(resolve(&demo(), "missing", "v1"), None);
}

#[test]
fn name_and_tag_are_not_swapped() {
    assert_eq!(resolve(&demo(), "v1", "demo"), None);
}

#[test]
fn package_that_is_not_a_table_is_not_found() {
    let m = Manifest::parse("demo = \"blobs/demo.bin\"\n").ok().unwrap();
    assert_eq!(resolve(&m, "demo", "v1"), None);
}

#[test]
fn tag_that_is_not_a_table_is_not_found() {
    let m = Manifest::parse("[demo]\nv1 = \"blobs/demo-v1.bin\"\n").ok().unwrap();
    assert_eq!(resolve(&m, "demo", "v1"), None);
}

#[test]
fn entry_without_path_is_not_found() {
    let m = Manifest::parse("[demo.v1]\nsize = 3\n").ok().unwrap();
    assert_eq!(resolve(&m, "demo", "v1"), None);
}

#[test]
fn path_that_is_not_a_string_is_not_found() {
    let m = Manifest::parse("[demo.v1]\npath = 7\n").ok().unwrap();
    assert_eq!(resolve(&m, "demo", "v1"), None);
}

#[test]
fn extra_metadata_beside_path_is_ignored() {
    let m = Manifest::parse("[demo.v1]\npath = \"a/b\"\nsha = \"00\"\nsize = 3\n").ok().unwrap();
    assert_eq!(resolve(&m, "demo", "v1"), Some("a/b".to_string()));
}

#[test]
fn each_tag_has_its_own_path() {
    let m = Manifest::parse("[demo.v1]\npath = \"one\"\n[demo.v2]\npath = \"two\"\n[other.v1]\npath = \"three\"\n")
        .ok()
        .unwrap();
    assert_eq!(resolve(&m, "demo", "v1"), Some("one".to_string()));
    assert_eq!(resolve(&m, "demo", "v2"), Some("two".to_string()));
    assert_eq!(resolve(&m, "other", "v1"), Some("three".to_string()));
    assert_eq!(resolve(&m, "other", "v2"), None);
}

#[test]
fn empty_manifest_resolves_nothing() {
    let m = Manifest::parse("").ok().unwrap();
    assert_eq!(resolve(&m, "demo", "v1"), None);
    assert_eq!(resolve(&m, "", ""), None);
}

#[test]
fn inline_table_manifest_resolves() {
    let m = Manifest::parse("demo = { v1 = { path = \"blobs/demo-v1.bin\" } }\n").ok().unwrap();
    assert_eq!(resolve(&m, "demo", "v1"), Some("blobs/demo-v1.bin".to_string()));
}

#[test]
fn parse_rejects_text_that_is_not_toml() {
    assert_eq!(Manifest::parse("demo = = 3").err(), Some(ManifestError::ManifestMalformed));
}

#[test]
fn load_reports_missing_manifest() {
    assert_eq!(Manifest::load(None).err(), Some(ManifestError::ManifestMissing));
}

#[test]
fn load_reports_bytes_that_are_not_utf8() {
    assert_eq!(Manifest::load(Some(vec![0xff, 0xfe, 0x00])).err(), Some(ManifestError::ManifestUnreadable));
}

#[test]
fn load_reports_malformed_text() {
    assert_eq!(Manifest::load(Some(b"[demo".to_vec())).err(), Some(ManifestError::ManifestMalformed));
}

#[test]
fn load_accepts_a_valid_document() {
    let m = Manifest::load(Some(DEMO.as_bytes().to_vec())).ok().unwrap();
    assert_eq!(resolve(&m, "demo", "v1"), Some("blobs/demo-v1.bin".to_string()));
    assert_eq!(resolve(&m, "demo", "v2"), None);
}

#[test]
fn load_decodes_multibyte_text() {
    let text = "[\"d\u{e9}mo\".v1]\npath = \"blobs/\u{65e5}\u{672c}.bin\"\n";
    let m = Manifest::load(Some(text.as_bytes().to_vec())).ok().unwrap();
    assert_eq!(resolve(&m, "d\u{e9}mo", "v1"), Some("blobs/\u{65e5}\u{672c}.bin".to_string()));
}
