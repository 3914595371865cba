use forkfs::path_undo::{push, TmpPath};
use forkfs::store::{get_session_dir, get_sessions_dir};

#[test]
fn push_adds_a_separator_between_components() {
    let mut path = b"/home/u/.cache".to_vec();
    push(&mut path, b"forkfs");
    assert_eq!(path, b"/home/u/.cache/forkfs".to_vec());
}

#[test]
fn push_adds_no_separator_after_one() {
    let mut path = b"/".to_vec();
    push(&mut path, b"tmp");
    assert_eq!(path, b"/tmp".to_vec());
}

#[test]
fn push_onto_empty_path_is_the_child() {
    let mut path: Vec<u8> = Vec::new();
    push(&mut path, b"merged");
    assert_eq!(path, b"merged".to_vec());
}

#[test]
fn scoped_path_presents_joined_path() {
    let mut buffer = b"/c/forkfs/s1".to_vec();
    let scoped = TmpPath::new(&mut buffer, b"merged");
    assert_eq!(scoped.as_slice(), b"/c/forkfs/s1/merged");
    assert_eq!(scoped.to_vec(), b"/c/forkfs/s1/merged".to_vec());
    scoped.release();
    assert_eq!(buffer, b"/c/forkfs/s1".to_vec());
}

#[test]
fn scoped_path_restores_buffer_after_nested_scopes() {
    let mut buffer = b"/c/forkfs/s1".to_vec();
    let merged = TmpPath::new(&mut buffer, b"merged");
    let inner = TmpPath::new(&mut *merged.buffer, b"proc");
    assert_eq!(inner.as_slice(), b"/c/forkfs/s1/merged/proc");
    inner.release();
    assert_eq!(merged.as_slice(), b"/c/forkfs/s1/merged");
    let inner = TmpPath::new(&mut *merged.buffer, b"dev");
    assert_eq!(inner.as_slice(), b"/c/forkfs/s1/merged/dev");
    inner.release();
    merged.release();
    assert_eq!(buffer, b"/c/forkfs/s1".to_vec());
}

#[test]
fn scoped_path_restores_buffer_for_any_child() {
    for child in [&b""[..], b"/etc", b"a/b", b"..", b"x\0y"] {
        let mut buffer = b"/root/dir".to_vec();
        let scoped = TmpPath::new(&mut buffer, child);
        scoped.release();
        assert_eq!(buffer, b"/root/dir".to_vec());
    }
}

#[test]
fn sessions_dir_is_forkfs_under_the_cache() {
    assert_eq!(get_sessions_dir(Some(b"/home/u/.cache".to_vec())), b"/home/u/.cache/forkfs".to_vec());
}

#[test]
fn sessions_dir_falls_back_to_tmp() {
    assert_eq!(get_sessions_dir(None), b"/tmp/forkfs".to_vec());
}

#[test]
fn session_dir_takes_the_name_verbatim() {
    assert_eq!(get_session_dir(b"/c/forkfs", b"default"), b"/c/forkfs/default".to_vec());
    assert_eq!(get_session_dir(b"/c/forkfs", b"/etc"), b"/c/forkfs//etc".to_vec());
    assert_eq!(get_session_dir(b"/c/forkfs", b"a b"), b"/c/forkfs/a b".to_vec());
}

#[test]
fn different_sessions_live_in_different_directories() {
    let first = get_session_dir(b"/c/forkfs", b"s1");
    let second = get_session_dir(b"/c/forkfs", b"s2");
    assert_ne!(first, second);
    assert!(first.starts_with(b"/c/forkfs/"));
    assert!(second.starts_with(b"/c/forkfs/"));
}
