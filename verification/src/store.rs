//! Where sandboxes live on disk: every sandbox is a directory, named after
//! the sandbox, under one directory of the user's cache.

use vstd::prelude::*;
use vstd::string::*;
use crate::path_undo::{joined, push};

verus! {

/// The directory that holds all sandboxes: `forkfs` under the user's cache
/// directory, or under `/tmp` where the user has none.
pub open spec fn sessions_dir(cache_dir: Option<Seq<u8>>) -> Seq<u8> {
    joined(
        match cache_dir {
            Some(dir) => dir,
            None => "/tmp".spec_bytes(),
        },
        "forkfs".spec_bytes(),
    )
}

/// The directory of the sandbox `name` under `root`. The name is taken as
/// it is.
pub open spec fn session_dir(root: Seq<u8>, name: Seq<u8>) -> Seq<u8> {
    joined(root, name)
}

/// The directory that holds all sandboxes, given the user's cache directory
/// where there is one.
pub fn get_sessions_dir(cache_dir: Option<Vec<u8>>) -> (dir: Vec<u8>)
    ensures
        dir@ == sessions_dir(
            match cache_dir {
                Some(dir) => Some(dir@),
                None => None,
            },
        ),
{
    let mut dir = match cache_dir {
        Some(dir) => dir,
        None => "/tmp".as_bytes_vec(),
    };
    push(&mut dir, "forkfs".as_bytes());
    dir
}

/// The directory of the sandbox `name` under `root`.
pub fn get_session_dir(root: &[u8], name: &[u8]) -> (dir: Vec<u8>)
    ensures
        dir@ == session_dir(root@, name@),
{
    let mut dir = vstd::slice::slice_to_vec(root);
    push(&mut dir, name);
    dir
}

/// A sandbox's directory lies under the root, whatever its name.
pub proof fn session_dir_is_under_root(root: Seq<u8>, name: Seq<u8>)
    ensures
        root.is_prefix_of(session_dir(root, name)),
        session_dir(root, name).len() >= root.len() + name.len(),
{
}

/// Sandboxes of different names live in different directories: no two
/// sandboxes share their layers.
pub proof fn names_tell_sandboxes_apart(root: Seq<u8>, first: Seq<u8>, second: Seq<u8>)
    requires
        session_dir(root, first) == session_dir(root, second),
    ensures
        first == second,
{
    let lead = session_dir(root, first).len() - first.len();
    assert(session_dir(root, first).skip(lead) =~= first);
    assert(session_dir(root, second).skip(lead) =~= second);
}

} // verus!
