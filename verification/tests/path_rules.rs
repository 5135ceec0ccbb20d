use cargo_jump::bytes::{split_lines, trim_bytes};
use cargo_jump::paths::{dir_contains, join_path, parent_components, path_components};
use cargo_jump::source::parse_file_list;

#[test]
fn components_of_absolute_path() {
    let c = path_components(&b"/ws/a".to_vec());
    assert_eq!(c, vec![b"".to_vec(), b"ws".to_vec(), b"a".to_vec()]);
}

#[test]
fn parent_drops_the_file_name() {
    let c = parent_components(&b"/ws/a/Cargo.toml".to_vec());
    assert_eq!(c, vec![b"".to_vec(), b"ws".to_vec(), b"a".to_vec()]);
}

#[test]
fn dir_contains_nested_file() {
    assert!(dir_contains(&b"/ws/foo".to_vec(), &b"/ws/foo/src/lib.rs".to_vec()));
}

#[test]
fn dir_contains_the_dir_itself() {
    assert!(dir_contains(&b"/ws/foo".to_vec(), &b"/ws/foo".to_vec()));
}

#[test]
fn dir_does_not_contain_sibling_with_same_byte_prefix() {
    assert!(!dir_contains(&b"/ws/foo".to_vec(), &b"/ws/foo-bar/x.txt".to_vec()));
}

#[test]
fn dir_does_not_contain_unrelated_file() {
    assert!(!dir_contains(&b"/ws/foo".to_vec(), &b"/ws/bar/x.txt".to_vec()));
}

#[test]
fn join_inserts_separator() {
    let r = join_path(&b"/ws".to_vec(), &b"a/x.txt".to_vec());
    assert_eq!(r, b"/ws/a/x.txt".to_vec());
}

#[test]
fn join_keeps_existing_separator() {
    let r = join_path(&b"/ws/".to_vec(), &b"a".to_vec());
    assert_eq!(r, b"/ws/a".to_vec());
}

#[test]
fn join_absolute_relative_part_wins() {
    let r = join_path(&b"/ws".to_vec(), &b"/etc/x".to_vec());
    assert_eq!(r, b"/etc/x".to_vec());
}

#[test]
fn trim_removes_surrounding_whitespace() {
    assert_eq!(trim_bytes(&b"  /ws \n".to_vec()), b"/ws".to_vec());
    assert_eq!(trim_bytes(&b"/ws".to_vec()), b"/ws".to_vec());
    assert_eq!(trim_bytes(&b" \t\r\n".to_vec()), b"".to_vec());
}

#[test]
fn lines_drop_only_the_trailing_terminator() {
    assert_eq!(split_lines(&b"a\nb\n".to_vec()), vec![b"a".to_vec(), b"b".to_vec()]);
    assert_eq!(split_lines(&b"a\nb".to_vec()), vec![b"a".to_vec(), b"b".to_vec()]);
    assert_eq!(
        split_lines(&b"a\n\nb".to_vec()),
        vec![b"a".to_vec(), b"".to_vec(), b"b".to_vec()]
    );
    assert_eq!(split_lines(&b"".to_vec()), Vec::<Vec<u8>>::new());
    assert_eq!(split_lines(&b"\n".to_vec()), vec![b"".to_vec()]);
}

#[test]
fn file_list_resolves_each_line() {
    let r = parse_file_list(&b"/ws".to_vec(), &b"a/x.txt\nb/y.txt\n".to_vec());
    assert_eq!(r, vec![b"/ws/a/x.txt".to_vec(), b"/ws/b/y.txt".to_vec()]);
}

#[test]
fn file_list_of_empty_output_is_empty() {
    let r = parse_file_list(&b"/ws".to_vec(), &b"".to_vec());
    assert_eq!(r, Vec::<Vec<u8>>::new());
}
