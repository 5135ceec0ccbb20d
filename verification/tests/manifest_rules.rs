use cargo_jump::manifest::{set_manifest_version, ManifestError};

const MANIFEST: &str = "# top comment\n[package]\nname = \"a\" # keep me\nversion = \"0.1.0\"\nedition = \"2021\"\n\n[dependencies]\nfoo = \"1\"\n";

#[test]
fn sets_the_version_and_preserves_everything_else() {
    let out = set_manifest_version(MANIFEST, "2.0.0").unwrap();
    let expected = "# top comment\n[package]\nname = \"a\" # keep me\nversion = \"2.0.0\"\nedition = \"2021\"\n\n[dependencies]\nfoo = \"1\"\n";
    assert_eq!(out, expected);
}

#[test]
fn setting_the_version_twice_is_idempotent() {
    let once = set_manifest_version(MANIFEST, "2.0.0").unwrap();
    let twice = set_manifest_version(&once, "2.0.0").unwrap();
    assert_eq!(once, twice);
}

#[test]
fn version_is_taken_verbatim() {
    let out = set_manifest_version("[package]\nversion = \"0.0.0\"\n", "not-semver").unwrap();
    assert_eq!(out, "[package]\nversion = \"not-semver\"\n");
}

#[test]
fn output_is_normalized_with_a_trailing_newline() {
    // The editor ends every document with a newline, even when the input
    // lacked one; a second application then changes nothing further.
    let out = set_manifest_version("[package]\nversion = \"0.0.0\"", "1.0.0").unwrap();
    assert_eq!(out, "[package]\nversion = \"1.0.0\"\n");
    let again = set_manifest_version(&out, "1.0.0").unwrap();
    assert_eq!(again, out);
}

#[test]
fn missing_package_section_is_malformed() {
    let r = set_manifest_version("[dependencies]\nfoo = \"1\"\n", "2.0.0");
    assert_eq!(r, Err(ManifestError::MissingVersion));
}

#[test]
fn missing_version_entry_is_malformed() {
    let r = set_manifest_version("[package]\nname = \"a\"\n", "2.0.0");
    assert_eq!(r, Err(ManifestError::MissingVersion));
}

#[test]
fn version_outside_the_package_table_does_not_count() {
    let r = set_manifest_version("version = \"0.1.0\"\n[dependencies]\n", "2.0.0");
    assert_eq!(r, Err(ManifestError::MissingVersion));
}

#[test]
fn unparsable_text_is_rejected() {
    let r = set_manifest_version("[package\nversion = ", "2.0.0");
    assert_eq!(r, Err(ManifestError::Unparsable));
}
