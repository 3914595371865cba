//! The mount stack of a sandbox: which directories it is made of, which
//! mounts assemble it, and which unmounts take it apart again.
//!
//! A sandbox directory `<dir>` holds three layers: `diff` receives every
//! write, `work` is the overlay's scratch space, and `merged` is where the
//! union of `/` and `diff` appears. Inside `merged` the host's `/proc`,
//! `/dev`, `/run` and `/tmp` are bound, each made to receive mount events
//! from the host without sending its own back.

use vstd::prelude::*;
use vstd::string::*;
use crate::error::{Error, Report, ReportView};
use crate::path_undo::{joined, TmpPath, SEPARATOR};
use crate::syscall::{Request, RequestView};
use crate::text::{contains_byte, holds};

verus! {

/// How many layer directories a sandbox has.
pub const LAYERS: usize = 3;

/// How many host directories are bound into a sandbox.
pub const BINDS: usize = 4;

/// How many requests assemble a sandbox: the overlay, then a bind and a
/// change of propagation for each bound directory.
pub const ASSEMBLY_STEPS: usize = 9;

/// How many requests take a sandbox apart: one unmount for each bound
/// directory, then that of the overlay.
pub const TEARDOWN_STEPS: usize = 5;

/// The name of layer `index`: `diff`, `work`, `merged`.
pub open spec fn layer_name(index: int) -> Seq<u8> {
    if index == 0 {
        "diff".spec_bytes()
    } else if index == 1 {
        "work".spec_bytes()
    } else {
        "merged".spec_bytes()
    }
}

/// The name of bound directory `index`: `proc`, `dev`, `run`, `tmp`.
pub open spec fn bind_name(index: int) -> Seq<u8> {
    if index == 0 {
        "proc".spec_bytes()
    } else if index == 1 {
        "dev".spec_bytes()
    } else if index == 2 {
        "run".spec_bytes()
    } else {
        "tmp".spec_bytes()
    }
}

/// Where the union view of the sandbox `dir` is mounted.
pub open spec fn merged_dir(dir: Seq<u8>) -> Seq<u8> {
    joined(dir, "merged".spec_bytes())
}

/// Where bound directory `index` appears inside the sandbox `dir`.
pub open spec fn bind_target(dir: Seq<u8>, index: int) -> Seq<u8> {
    joined(merged_dir(dir), bind_name(index))
}

/// The host directory that is bound as number `index`.
pub open spec fn bind_source(index: int) -> Seq<u8> {
    "/".spec_bytes() + bind_name(index)
}

/// The options of the overlay mount of the sandbox `dir`: the real root
/// below, `diff` above, `work` as scratch space.
pub open spec fn overlay_options(dir: Seq<u8>) -> Seq<u8> {
    "lowerdir=/,upperdir=".spec_bytes() + joined(dir, "diff".spec_bytes())
        + ",workdir=".spec_bytes() + joined(dir, "work".spec_bytes())
}

/// Request `index` of those that create the layers of the sandbox `dir`.
pub open spec fn creation_request(dir: Seq<u8>, index: int) -> RequestView {
    RequestView::CreateDirAll { path: joined(dir, layer_name(index)) }
}

/// The requests that create the layers of the sandbox `dir`, in order.
pub open spec fn creation(dir: Seq<u8>) -> Seq<RequestView> {
    Seq::new(LAYERS as nat, |index: int| creation_request(dir, index))
}

/// Request `index` of those that assemble the sandbox `dir`: first the
/// overlay, then for each bound directory its bind and, right after it, the
/// change of its propagation.
pub open spec fn assembly_request(dir: Seq<u8>, index: int) -> RequestView {
    if index == 0 {
        RequestView::MountOverlay { target: merged_dir(dir), options: overlay_options(dir) }
    } else if index % 2 == 1 {
        RequestView::BindRecursive {
            source: bind_source((index - 1) / 2),
            target: bind_target(dir, (index - 1) / 2),
        }
    } else {
        RequestView::MakeDownstream { target: bind_target(dir, (index - 2) / 2) }
    }
}

/// The requests that assemble the sandbox `dir`, in order.
pub open spec fn assembly(dir: Seq<u8>) -> Seq<RequestView> {
    Seq::new(ASSEMBLY_STEPS as nat, |index: int| assembly_request(dir, index))
}

/// Request `index` of those that take the sandbox `dir` apart: the bound
/// directories are detached first, the overlay is unmounted last and not
/// lazily.
pub open spec fn teardown_request(dir: Seq<u8>, index: int) -> RequestView {
    if index < BINDS {
        RequestView::Unmount { target: bind_target(dir, index), detach: true }
    } else {
        RequestView::Unmount { target: merged_dir(dir), detach: false }
    }
}

/// The requests that take the sandbox `dir` apart, in order.
pub open spec fn teardown(dir: Seq<u8>) -> Seq<RequestView> {
    Seq::new(TEARDOWN_STEPS as nat, |index: int| teardown_request(dir, index))
}

/// Whether the paths of the sandbox `dir` can be handed to the kernel: a
/// path with a NUL byte cannot.
pub open spec fn mountable(dir: Seq<u8>) -> bool {
    !holds(dir, 0)
}

/// What is reported where the paths of a sandbox hold a NUL byte.
pub open spec fn invalid_path_report() -> ReportView {
    ReportView::new(Error::InvalidArgument).attach("Invalid path bytes".spec_bytes())
}

fn layer(index: usize) -> (name: &'static [u8])
    ensures
        name@ == layer_name(index as int),
{
    if index == 0 {
        "diff".as_bytes()
    } else if index == 1 {
        "work".as_bytes()
    } else {
        "merged".as_bytes()
    }
}

fn bind(index: usize) -> (name: &'static [u8])
    ensures
        name@ == bind_name(index as int),
{
    if index == 0 {
        "proc".as_bytes()
    } else if index == 1 {
        "dev".as_bytes()
    } else if index == 2 {
        "run".as_bytes()
    } else {
        "tmp".as_bytes()
    }
}

/// The path of `child` inside the sandbox `dir`.
fn child_of(dir: &mut Vec<u8>, child: &[u8]) -> (path: Vec<u8>)
    ensures
        path@ == joined(old(dir)@, child@),
        final(dir)@ == old(dir)@,
{
    let scoped = TmpPath::new(dir, child);
    let path = scoped.to_vec();
    scoped.release();
    path
}

/// Where bound directory `index` appears inside the sandbox `dir`.
fn target_of(dir: &mut Vec<u8>, index: usize) -> (path: Vec<u8>)
    ensures
        path@ == bind_target(old(dir)@, index as int),
        final(dir)@ == old(dir)@,
{
    let merged = TmpPath::new(dir, "merged".as_bytes());
    let target = TmpPath::new(&mut *merged.buffer, bind(index));
    let path = target.to_vec();
    target.release();
    merged.release();
    path
}

/// Tells whether the paths of the sandbox `dir` can be handed to the kernel.
pub fn is_mountable(dir: &[u8]) -> (valid: bool)
    ensures
        valid == mountable(dir@),
{
    !contains_byte(dir, 0)
}

/// The report for a sandbox whose paths hold a NUL byte.
pub fn invalid_path() -> (report: Report)
    ensures
        report@ == invalid_path_report(),
{
    Report::new(Error::InvalidArgument).attach("Invalid path bytes".as_bytes_vec())
}

/// The options of the overlay mount of the sandbox `dir`.
pub fn options_of(dir: &mut Vec<u8>) -> (options: Vec<u8>)
    ensures
        options@ == overlay_options(old(dir)@),
        final(dir)@ == old(dir)@,
{
    let mut options = "lowerdir=/,upperdir=".as_bytes_vec();
    {
        let diff = TmpPath::new(dir, "diff".as_bytes());
        options.extend_from_slice(diff.as_slice());
        diff.release();
    }
    options.extend_from_slice(",workdir=".as_bytes());
    {
        let work = TmpPath::new(dir, "work".as_bytes());
        options.extend_from_slice(work.as_slice());
        work.release();
    }
    options
}

/// Request `index` of those that create the layers of the sandbox `dir`.
pub(crate) fn creation_step(dir: &mut Vec<u8>, index: usize) -> (request: Request)
    ensures
        request@ == creation_request(old(dir)@, index as int),
        final(dir)@ == old(dir)@,
{
    Request::CreateDirAll { path: child_of(dir, layer(index)) }
}

/// Request `index` of those that assemble the sandbox `dir`.
pub(crate) fn assembly_step(dir: &mut Vec<u8>, index: usize) -> (request: Request)
    ensures
        request@ == assembly_request(old(dir)@, index as int),
        final(dir)@ == old(dir)@,
{
    if index == 0 {
        let options = options_of(dir);
        let target = child_of(dir, "merged".as_bytes());
        Request::MountOverlay { target, options }
    } else if index % 2 == 1 {
        let which = (index - 1) / 2;
        let mut source = "/".as_bytes_vec();
        source.extend_from_slice(bind(which));
        assert(source@ =~= bind_source(which as int));
        let target = target_of(dir, which);
        Request::BindRecursive { source, target }
    } else {
        let target = target_of(dir, (index - 2) / 2);
        Request::MakeDownstream { target }
    }
}

/// Request `index` of those that take the sandbox `dir` apart.
pub(crate) fn teardown_step(dir: &mut Vec<u8>, index: usize) -> (request: Request)
    ensures
        request@ == teardown_request(old(dir)@, index as int),
        final(dir)@ == old(dir)@,
{
    if index < BINDS {
        let target = target_of(dir, index);
        Request::Unmount { target, detach: true }
    } else {
        let target = child_of(dir, "merged".as_bytes());
        Request::Unmount { target, detach: false }
    }
}

/// A concatenation holds a byte exactly when one of its parts does.
pub proof fn holds_in_parts(first: Seq<u8>, second: Seq<u8>, byte: u8)
    ensures
        holds(first + second, byte) <==> holds(first, byte) || holds(second, byte),
{
    let whole = first + second;
    if holds(first, byte) {
        let i = choose|i: int| 0 <= i < first.len() && first[i] == byte;
        assert(whole[i] == byte);
    }
    if holds(second, byte) {
        let i = choose|i: int| 0 <= i < second.len() && second[i] == byte;
        assert(whole[first.len() + i] == byte);
    }
    if holds(whole, byte) {
        let i = choose|i: int| 0 <= i < whole.len() && whole[i] == byte;
        if i < first.len() {
            assert(first[i] == byte);
        } else {
            assert(second[i - first.len()] == byte);
        }
    }
}

/// The fixed parts of the overlay options hold no NUL byte.
proof fn option_words_hold_no_nul()
    ensures
        !holds("lowerdir=/,upperdir=".spec_bytes(), 0),
        !holds(",workdir=".spec_bytes(), 0),
        !holds("diff".spec_bytes(), 0),
        !holds("work".spec_bytes(), 0),
{
    reveal_strlit("lowerdir=/,upperdir=");
    reveal_strlit(",workdir=");
    reveal_strlit("diff");
    reveal_strlit("work");
    assert(is_ascii("lowerdir=/,upperdir="));
    assert(is_ascii(",workdir="));
    assert(is_ascii("diff"));
    assert(is_ascii("work"));
    is_ascii_spec_bytes("lowerdir=/,upperdir=");
    is_ascii_spec_bytes(",workdir=");
    is_ascii_spec_bytes("diff");
    is_ascii_spec_bytes("work");
}

/// The overlay options can be handed to the kernel exactly when the
/// sandbox directory can: they hold a NUL byte only where its path does.
pub proof fn options_are_valid_with_the_path(dir: Seq<u8>)
    ensures
        !holds(overlay_options(dir), 0) <==> mountable(dir),
{
    option_words_hold_no_nul();
    let diff = joined(dir, "diff".spec_bytes());
    let work = joined(dir, "work".spec_bytes());
    assert(!holds(seq![SEPARATOR], 0)) by {
        if holds(seq![SEPARATOR], 0) {
            let i = choose|i: int| 0 <= i < seq![SEPARATOR].len() && seq![SEPARATOR][i] == 0u8;
            assert(seq![SEPARATOR][i] == SEPARATOR);
        }
    }
    holds_in_parts(dir, seq![SEPARATOR], 0);
    holds_in_parts(dir + seq![SEPARATOR], "diff".spec_bytes(), 0);
    holds_in_parts(dir, "diff".spec_bytes(), 0);
    holds_in_parts(dir + seq![SEPARATOR], "work".spec_bytes(), 0);
    holds_in_parts(dir, "work".spec_bytes(), 0);
    assert(holds(diff, 0) <==> holds(dir, 0));
    assert(holds(work, 0) <==> holds(dir, 0));
    holds_in_parts("lowerdir=/,upperdir=".spec_bytes(), diff, 0);
    holds_in_parts("lowerdir=/,upperdir=".spec_bytes() + diff, ",workdir=".spec_bytes(), 0);
    holds_in_parts(
        "lowerdir=/,upperdir=".spec_bytes() + diff + ",workdir=".spec_bytes(),
        work,
        0,
    );
}

/// Every bind of the assembly is followed at once by the change that keeps
/// its mount events from reaching the host, on the same target, and that
/// target lies inside the union view.
pub proof fn binds_are_made_downstream(dir: Seq<u8>, which: int)
    requires
        0 <= which < BINDS,
    ensures
        assembly(dir)[0] == (RequestView::MountOverlay {
            target: merged_dir(dir),
            options: overlay_options(dir),
        }),
        assembly(dir)[1 + 2 * which] == (RequestView::BindRecursive {
            source: bind_source(which),
            target: bind_target(dir, which),
        }),
        assembly(dir)[2 + 2 * which] == (RequestView::MakeDownstream {
            target: bind_target(dir, which),
        }),
        merged_dir(dir).is_prefix_of(bind_target(dir, which)),
{
}

/// The teardown undoes the assembly: each bound directory is detached
/// where the assembly bound it, all of them before the union view, which is
/// unmounted last, where the assembly mounted it, and not lazily.
pub proof fn teardown_undoes_assembly(dir: Seq<u8>, which: int)
    requires
        0 <= which < BINDS,
    ensures
        teardown(dir)[which] == (RequestView::Unmount {
            target: assembly(dir)[1 + 2 * which]->BindRecursive_target,
            detach: true,
        }),
        teardown(dir)[TEARDOWN_STEPS - 1] == (RequestView::Unmount {
            target: assembly(dir)[0]->MountOverlay_target,
            detach: false,
        }),
{
}

} // verus!
