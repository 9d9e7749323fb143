use safe_file::error::OpenError;
use safe_file::fd::FileStatus;
use safe_file::paths::{split_path, validate_path};

#[test]
fn empty_path_is_not_absolute() {
    assert_eq!(validate_path(b""), Err(OpenError::PathNotAbsolute));
}

#[test]
fn relative_path_is_rejected() {
    assert_eq!(validate_path(b"tmp/file.txt"), Err(OpenError::PathNotAbsolute));
}

#[test]
fn single_dot_component_is_rejected() {
    assert_eq!(
        validate_path(b"/tmp_root/./file.txt"),
        Err(OpenError::RelativeComponentDisallowed)
    );
}

#[test]
fn parent_dot_component_is_rejected() {
    assert_eq!(
        validate_path(b"/tmp_root/../file.txt"),
        Err(OpenError::RelativeComponentDisallowed)
    );
}

#[test]
fn lone_parent_dot_is_rejected() {
    assert_eq!(validate_path(b"/.."), Err(OpenError::RelativeComponentDisallowed));
}

#[test]
fn trailing_dot_component_is_rejected() {
    assert_eq!(validate_path(b"/a/b/."), Err(OpenError::RelativeComponentDisallowed));
}

#[test]
fn non_absolute_wins_over_dot_components() {
    assert_eq!(validate_path(b"../x"), Err(OpenError::PathNotAbsolute));
}

#[test]
fn plain_path_splits_into_components() {
    let cs = validate_path(b"/tmp_root/a/b/file.txt").unwrap();
    let want: Vec<Vec<u8>> = vec![
        b"".to_vec(),
        b"tmp_root".to_vec(),
        b"a".to_vec(),
        b"b".to_vec(),
        b"file.txt".to_vec(),
    ];
    assert_eq!(cs, want);
}

#[test]
fn root_path_has_two_empty_components() {
    let cs = validate_path(b"/").unwrap();
    let want: Vec<Vec<u8>> = vec![b"".to_vec(), b"".to_vec()];
    assert_eq!(cs, want);
}

#[test]
fn doubled_separator_keeps_an_empty_component() {
    let cs = validate_path(b"/a//b").unwrap();
    let want: Vec<Vec<u8>> = vec![b"".to_vec(), b"a".to_vec(), b"".to_vec(), b"b".to_vec()];
    assert_eq!(cs, want);
}

#[test]
fn dotted_names_that_are_not_dot_components_pass() {
    assert!(validate_path(b"/a/...").is_ok());
    assert!(validate_path(b"/a/.hidden").is_ok());
    assert!(validate_path(b"/a/b..c").is_ok());
}

#[test]
fn split_keeps_all_separator_runs() {
    let cs = split_path(b"//");
    let want: Vec<Vec<u8>> = vec![b"".to_vec(), b"".to_vec(), b"".to_vec()];
    assert_eq!(cs, want);
}

#[test]
fn split_of_the_empty_path_is_one_empty_component() {
    let cs = split_path(b"");
    let want: Vec<Vec<u8>> = vec![b"".to_vec()];
    assert_eq!(cs, want);
}

#[test]
fn mode_word_checks_match_the_kernel_bit_layout() {
    assert!(FileStatus { mode: 0o100646 }.is_world_writable());
    assert!(FileStatus { mode: 0o100002 }.is_world_writable());
    assert!(!FileStatus { mode: 0o100644 }.is_world_writable());

    assert!(FileStatus { mode: 0o100644 }.is_regular_file());
    assert!(!FileStatus { mode: 0o040755 }.is_regular_file());
    assert!(!FileStatus { mode: 0o120777 }.is_regular_file());
    assert!(!FileStatus { mode: 0o020666 }.is_regular_file());
    assert!(!FileStatus { mode: 0o010600 }.is_regular_file());
}
