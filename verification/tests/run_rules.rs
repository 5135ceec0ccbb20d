use cargo_jump::manifest::ManifestError;
use cargo_jump::resolve::Package;
use cargo_jump::run::{workspace_inside_toplevel, RunError, Runner};

fn pkg(name: &str, manifest_path: &[u8]) -> Package {
    Package { name: name.to_string(), manifest_path: manifest_path.to_vec() }
}

fn manifest(version: &str) -> String {
    format!("[package]\nname = \"p\"\nversion = \"{}\"\n", version)
}

#[test]
fn precondition_accepts_a_nested_workspace() {
    assert!(workspace_inside_toplevel(&b"/repo".to_vec(), &b"/repo/ws".to_vec()));
    assert!(workspace_inside_toplevel(&b"/repo".to_vec(), &b"/repo".to_vec()));
}

#[test]
fn precondition_rejects_a_workspace_outside_the_toplevel() {
    assert!(!workspace_inside_toplevel(&b"/repo".to_vec(), &b"/elsewhere/ws".to_vec()));
    assert!(!workspace_inside_toplevel(&b"/repo".to_vec(), &b"/repo-other".to_vec()));
}

#[test]
fn one_affected_package_is_written_and_locks_refresh() {
    let mut runner = Runner::new(
        vec![pkg("a", b"/ws/a/Cargo.toml")],
        "1.2.3".to_string(),
        false,
    );
    let next = runner.next_manifest().cloned();
    assert_eq!(next, Some(b"/ws/a/Cargo.toml".to_vec()));
    let w = runner.process_manifest(&manifest("0.1.0")).unwrap();
    assert_eq!(w, Some(manifest("1.2.3")));
    assert!(runner.finished());
    assert!(runner.next_manifest().is_none());
    assert!(runner.needs_refresh());
}

#[test]
fn both_packages_are_written_when_both_are_affected() {
    let mut runner = Runner::new(
        vec![pkg("a", b"/ws/a/Cargo.toml"), pkg("b", b"/ws/b/Cargo.toml")],
        "1.2.3".to_string(),
        false,
    );
    assert_eq!(runner.next_manifest().cloned(), Some(b"/ws/a/Cargo.toml".to_vec()));
    let w1 = runner.process_manifest(&manifest("0.1.0")).unwrap();
    assert_eq!(w1, Some(manifest("1.2.3")));
    assert_eq!(runner.next_manifest().cloned(), Some(b"/ws/b/Cargo.toml".to_vec()));
    let w2 = runner.process_manifest(&manifest("0.2.0")).unwrap();
    assert_eq!(w2, Some(manifest("1.2.3")));
    assert!(runner.finished());
    assert!(runner.needs_refresh());
}

#[test]
fn dry_run_writes_nothing_and_never_refreshes() {
    let mut runner = Runner::new(
        vec![pkg("a", b"/ws/a/Cargo.toml"), pkg("b", b"/ws/b/Cargo.toml")],
        "1.2.3".to_string(),
        true,
    );
    let w1 = runner.process_manifest(&manifest("0.1.0")).unwrap();
    assert_eq!(w1, None);
    let w2 = runner.process_manifest(&manifest("0.2.0")).unwrap();
    assert_eq!(w2, None);
    assert!(runner.finished());
    assert!(!runner.needs_refresh());
}

#[test]
fn empty_affected_set_is_a_no_op() {
    let runner = Runner::new(Vec::new(), "1.2.3".to_string(), false);
    assert!(runner.next_manifest().is_none());
    assert!(runner.finished());
    assert!(!runner.needs_refresh());
}

#[test]
fn a_malformed_manifest_stops_the_run_before_the_next_package() {
    let mut runner = Runner::new(
        vec![pkg("a", b"/ws/a/Cargo.toml"), pkg("b", b"/ws/b/Cargo.toml")],
        "1.2.3".to_string(),
        false,
    );
    let r = runner.process_manifest("[package]\nname = \"a\"\n");
    assert_eq!(r, Err(ManifestError::MissingVersion));
    // Nothing advanced: the first package is still the next one.
    assert_eq!(runner.next_manifest().cloned(), Some(b"/ws/a/Cargo.toml".to_vec()));
    assert!(!runner.finished());
    assert!(!runner.needs_refresh());
}

#[test]
fn each_failure_has_its_message() {
    assert_eq!(RunError::SourceUnavailable.message(), "cannot list changed files");
    assert_eq!(RunError::MetadataUnavailable.message(), "cannot read workspace metadata");
    assert_eq!(
        RunError::PreconditionViolated.message(),
        "workspace root is not inside the version-control toplevel"
    );
    assert_eq!(RunError::MalformedManifest.message(), "manifest has no package version to set");
    assert_eq!(RunError::RefreshFailed.message(), "lockfile refresh failed");
}
