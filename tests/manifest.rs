use xaction::manifest::{CargoToml, ManifestError};

fn manifest(contents: &str) -> CargoToml {
    CargoToml::new("/work/Cargo.toml".to_string(), contents.to_string())
}

#[test]
fn version_is_read_without_quotes() {
    let m = manifest("[package]\nname = \"xaction\"\nversion = \"1.2.3\"\nedition = \"2021\"\n");
    match m.version() {
        Ok(v) => assert_eq!(v, "1.2.3"),
        Err(e) => panic!("unexpected error: {}", e.message()),
    }
}

#[test]
fn version_takes_the_first_assignment() {
    let m = manifest("version = \"0.1.0\"\n[dependencies]\nversion = \"9.9.9\"\n");
    assert_eq!(m.version().ok(), Some("0.1.0".to_string()));
}

#[test]
fn version_allows_trailing_words_and_tabs() {
    let m = manifest("  version\t=   \"2.0.0-beta.1\"   # comment\r\n");
    assert_eq!(m.version().ok(), Some("2.0.0-beta.1".to_string()));
}

#[test]
fn version_ignores_other_keys_and_compact_lines() {
    let m = manifest("version.workspace = true\nversion=\"1.0.0\"\nmy-version = \"3\"\n");
    match m.version() {
        Err(ManifestError::NotFound { field, path }) => {
            assert_eq!(field, "version");
            assert_eq!(path, "/work/Cargo.toml");
        }
        _ => panic!("expected a not-found error"),
    }
}

#[test]
fn missing_version_names_field_and_path() {
    let m = manifest("[package]\nname = \"demo\"\n");
    let e = m.version().err().unwrap();
    assert_eq!(e.message(), "can't find `version` in /work/Cargo.toml");
}

#[test]
fn empty_manifest_has_no_version() {
    let m = manifest("");
    assert!(matches!(m.version(), Err(ManifestError::NotFound { .. })));
}

#[test]
fn unquoted_version_is_malformed() {
    let m = manifest("version = 1.2.3\n");
    match m.version() {
        Err(ManifestError::MalformedValue { field, path, token }) => {
            assert_eq!(field, "version");
            assert_eq!(path, "/work/Cargo.toml");
            assert_eq!(token, "1.2.3");
        }
        _ => panic!("expected a malformed-value error"),
    }
}

#[test]
fn lone_quote_is_malformed() {
    let m = manifest("version = \"\n");
    let e = m.version().err().unwrap();
    assert_eq!(e.message(), "value of `version` in /work/Cargo.toml is not a quoted string: \"");
}

#[test]
fn empty_quoted_value_is_empty() {
    let m = manifest("version = \"\"\n");
    assert_eq!(m.version().ok(), Some(String::new()));
}

#[test]
fn get_reads_any_field() {
    let m = manifest("name = \"demo\"\nversion = \"0.3.0\"\n");
    assert_eq!(m.get("name").ok(), Some("demo".to_string()));
    assert_eq!(m.path_str(), "/work/Cargo.toml");
}

#[test]
fn field_name_is_trimmed_of_unicode_space() {
    let m = manifest("\u{a0}version = \"4.5.6\"\n");
    assert_eq!(m.version().ok(), Some("4.5.6".to_string()));
}
