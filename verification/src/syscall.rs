//! The system calls that the library asks its caller to make, and what the
//! caller reports back. The library never touches the kernel itself: it hands
//! out one [`Request`] at a time and decides on the [`Response`] what to ask
//! next.

use vstd::prelude::*;
use vstd::string::*;
use crate::error::{Error, Report, ReportView};
use crate::text::views;

verus! {

/// `ENOENT`: no such file or directory.
pub const NOT_FOUND: i32 = 2;

/// `EPERM`: operation not permitted.
pub const NOT_PERMITTED: i32 = 1;

/// `EINVAL`: invalid argument; from `umount`, that the target is no mount point.
pub const INVALID: i32 = 22;

/// A system call that failed.
#[derive(Clone, Debug, PartialEq, Eq)]
pub struct IoFailure {
    /// The `errno` value, or 0 where the failure has none.
    pub code: i32,
    /// The system's description of the failure.
    pub description: Vec<u8>,
}

/// The mathematical content of an [`IoFailure`].
pub struct IoFailureView {
    pub code: i32,
    pub description: Seq<u8>,
}

impl View for IoFailure {
    type V = IoFailureView;

    open spec fn view(&self) -> IoFailureView {
        IoFailureView { code: self.code, description: self.description@ }
    }
}

/// One entry of a directory listing.
#[derive(Clone, Debug, PartialEq, Eq)]
pub enum Entry {
    /// The name of an entry.
    Name(Vec<u8>),
    /// An entry that could not be read.
    Unreadable(IoFailure),
}

/// The mathematical content of an [`Entry`].
pub enum EntryView {
    Name(Seq<u8>),
    Unreadable(IoFailureView),
}

impl View for Entry {
    type V = EntryView;

    open spec fn view(&self) -> EntryView {
        match self {
            Entry::Name(name) => EntryView::Name(name@),
            Entry::Unreadable(failure) => EntryView::Unreadable(failure@),
        }
    }
}

/// The contents of each entry of a listing.
pub open spec fn entry_views(entries: Seq<Entry>) -> Seq<EntryView> {
    entries.map_values(|entry: Entry| entry@)
}

/// A system call for the caller to make.
#[derive(Clone, Debug, PartialEq, Eq)]
pub enum Request {
    /// `statx` on `path`, for the id of the mount that holds it.
    MountId { path: Vec<u8> },
    /// Create the directory `path` and its missing parents.
    CreateDirAll { path: Vec<u8> },
    /// Mount an overlay file system at `target` with `options`.
    MountOverlay { target: Vec<u8>, options: Vec<u8> },
    /// Bind-mount `source` onto `target`, with all the mounts below it.
    BindRecursive { source: Vec<u8>, target: Vec<u8> },
    /// Make the mounts at and below `target` receive mount events without
    /// passing their own on.
    MakeDownstream { target: Vec<u8> },
    /// Unmount `target`: lazily with `detach`, else failing when it is busy.
    Unmount { target: Vec<u8>, detach: bool },
    /// Remove the directory `path` with all that it holds.
    RemoveDirAll { path: Vec<u8> },
    /// List the entries of the directory `path`.
    ReadDir { path: Vec<u8> },
    /// Write `bytes` to standard output.
    Write { bytes: Vec<u8> },
    /// Make root the user of the current thread.
    BecomeRoot,
    /// Read the effective capability set of the process.
    Capabilities,
    /// Read where `/proc/self/exe` points.
    ExecutablePath,
    /// Read the current working directory.
    CurrentDir,
    /// `chroot` to `path`.
    ChangeRoot { path: Vec<u8> },
    /// `chdir` to `path`.
    ChangeDir { path: Vec<u8> },
    /// Replace the process by `command`, run as user `uid` where one is given.
    Exec { command: Vec<Vec<u8>>, uid: Option<u32> },
}

/// The mathematical content of a [`Request`].
pub enum RequestView {
    MountId { path: Seq<u8> },
    CreateDirAll { path: Seq<u8> },
    MountOverlay { target: Seq<u8>, options: Seq<u8> },
    BindRecursive { source: Seq<u8>, target: Seq<u8> },
    MakeDownstream { target: Seq<u8> },
    Unmount { target: Seq<u8>, detach: bool },
    RemoveDirAll { path: Seq<u8> },
    ReadDir { path: Seq<u8> },
    Write { bytes: Seq<u8> },
    BecomeRoot,
    Capabilities,
    ExecutablePath,
    CurrentDir,
    ChangeRoot { path: Seq<u8> },
    ChangeDir { path: Seq<u8> },
    Exec { command: Seq<Seq<u8>>, uid: Option<u32> },
}

impl View for Request {
    type V = RequestView;

    open spec fn view(&self) -> RequestView {
        match self {
            Request::MountId { path } => RequestView::MountId { path: path@ },
            Request::CreateDirAll { path } => RequestView::CreateDirAll { path: path@ },
            Request::MountOverlay { target, options } => RequestView::MountOverlay {
                target: target@,
                options: options@,
            },
            Request::BindRecursive { source, target } => RequestView::BindRecursive {
                source: source@,
                target: target@,
            },
            Request::MakeDownstream { target } => RequestView::MakeDownstream { target: target@ },
            Request::Unmount { target, detach } => RequestView::Unmount {
                target: target@,
                detach: *detach,
            },
            Request::RemoveDirAll { path } => RequestView::RemoveDirAll { path: path@ },
            Request::ReadDir { path } => RequestView::ReadDir { path: path@ },
            Request::Write { bytes } => RequestView::Write { bytes: bytes@ },
            Request::BecomeRoot => RequestView::BecomeRoot,
            Request::Capabilities => RequestView::Capabilities,
            Request::ExecutablePath => RequestView::ExecutablePath,
            Request::CurrentDir => RequestView::CurrentDir,
            Request::ChangeRoot { path } => RequestView::ChangeRoot { path: path@ },
            Request::ChangeDir { path } => RequestView::ChangeDir { path: path@ },
            Request::Exec { command, uid } => RequestView::Exec {
                command: views(command@),
                uid: *uid,
            },
        }
    }
}

/// How a requested system call went.
#[derive(Clone, Debug, PartialEq, Eq)]
pub enum Response {
    /// The call succeeded and has nothing to tell.
    Done,
    /// The id of the mount that holds the path.
    MountId(u64),
    /// The entries of the directory, in the order in which they were read.
    Entries(Vec<Entry>),
    /// The effective capabilities, one bit for each.
    Capabilities(u64),
    /// The path that was asked for.
    Path(Vec<u8>),
    /// The call failed.
    Failed(IoFailure),
}

/// The mathematical content of a [`Response`].
pub enum ResponseView {
    Done,
    MountId(u64),
    Entries(Seq<EntryView>),
    Capabilities(u64),
    Path(Seq<u8>),
    Failed(IoFailureView),
}

impl View for Response {
    type V = ResponseView;

    open spec fn view(&self) -> ResponseView {
        match self {
            Response::Done => ResponseView::Done,
            Response::MountId(id) => ResponseView::MountId(*id),
            Response::Entries(entries) => ResponseView::Entries(entry_views(entries@)),
            Response::Capabilities(bits) => ResponseView::Capabilities(*bits),
            Response::Path(path) => ResponseView::Path(path@),
            Response::Failed(failure) => ResponseView::Failed(failure@),
        }
    }
}

/// What stands for a response that fits no request: a failure without an
/// `errno` value.
pub open spec fn unexpected() -> IoFailureView {
    IoFailureView { code: 0, description: "unexpected response".spec_bytes() }
}

/// A response read as the answer to a call that returns nothing.
pub open spec fn done_reply(response: ResponseView) -> Result<(), IoFailureView> {
    match response {
        ResponseView::Done => Ok(()),
        ResponseView::Failed(failure) => Err(failure),
        _ => Err(unexpected()),
    }
}

/// A response read as the answer to a request for a mount id.
pub open spec fn mount_id_reply(response: ResponseView) -> Result<u64, IoFailureView> {
    match response {
        ResponseView::MountId(id) => Ok(id),
        ResponseView::Failed(failure) => Err(failure),
        _ => Err(unexpected()),
    }
}

/// A response read as the answer to a request for a path.
pub open spec fn path_reply(response: ResponseView) -> Result<Seq<u8>, IoFailureView> {
    match response {
        ResponseView::Path(path) => Ok(path),
        ResponseView::Failed(failure) => Err(failure),
        _ => Err(unexpected()),
    }
}

/// A response read as the answer to a request for the capabilities.
pub open spec fn capabilities_reply(response: ResponseView) -> Result<u64, IoFailureView> {
    match response {
        ResponseView::Capabilities(bits) => Ok(bits),
        ResponseView::Failed(failure) => Err(failure),
        _ => Err(unexpected()),
    }
}

/// A response read as the answer to a request for a directory listing.
pub open spec fn entries_reply(response: ResponseView) -> Result<Seq<EntryView>, IoFailureView> {
    match response {
        ResponseView::Entries(entries) => Ok(entries),
        ResponseView::Failed(failure) => Err(failure),
        _ => Err(unexpected()),
    }
}

/// A failure's view, where there is one.
pub open spec fn failure_view<T>(reply: Result<T, IoFailure>) -> Result<T, IoFailureView> {
    match reply {
        Ok(value) => Ok(value),
        Err(failure) => Err(failure@),
    }
}

pub(crate) fn stray() -> (failure: IoFailure)
    ensures
        failure@ == unexpected(),
{
    IoFailure { code: 0, description: "unexpected response".as_bytes_vec() }
}

impl Response {
    /// Reads the response as the answer to a call that returns nothing.
    pub fn into_done(self) -> (reply: Result<(), IoFailure>)
        ensures
            failure_view(reply) == done_reply(self@),
    {
        match self {
            Response::Done => Ok(()),
            Response::Failed(failure) => Err(failure),
            _ => Err(stray()),
        }
    }

    /// Reads the response as the answer to a request for a mount id.
    pub fn into_mount_id(self) -> (reply: Result<u64, IoFailure>)
        ensures
            failure_view(reply) == mount_id_reply(self@),
    {
        match self {
            Response::MountId(id) => Ok(id),
            Response::Failed(failure) => Err(failure),
            _ => Err(stray()),
        }
    }

    /// Reads the response as the answer to a request for the capabilities.
    pub fn into_capabilities(self) -> (reply: Result<u64, IoFailure>)
        ensures
            failure_view(reply) == capabilities_reply(self@),
    {
        match self {
            Response::Capabilities(bits) => Ok(bits),
            Response::Failed(failure) => Err(failure),
            _ => Err(stray()),
        }
    }

    /// Reads the response as the answer to a request for a path.
    pub fn into_path(self) -> (reply: Result<Vec<u8>, IoFailure>)
        ensures
            match reply {
                Ok(path) => path_reply(self@) == Ok::<Seq<u8>, IoFailureView>(path@),
                Err(failure) => path_reply(self@) == Err::<Seq<u8>, IoFailureView>(failure@),
            },
    {
        match self {
            Response::Path(path) => Ok(path),
            Response::Failed(failure) => Err(failure),
            _ => Err(stray()),
        }
    }

    /// Reads the response as the answer to a request for a directory listing.
    pub fn into_entries(self) -> (reply: Result<Vec<Entry>, IoFailure>)
        ensures
            match reply {
                Ok(entries) => entries_reply(self@) == Ok::<Seq<EntryView>, IoFailureView>(
                    entry_views(entries@),
                ),
                Err(failure) => entries_reply(self@) == Err::<Seq<EntryView>, IoFailureView>(
                    failure@,
                ),
            },
    {
        match self {
            Response::Entries(entries) => Ok(entries),
            Response::Failed(failure) => Err(failure),
            _ => Err(stray()),
        }
    }
}

/// Answers whether something was missing.
pub trait IoResultUtils {
    /// Whether this stands for a failure that says "not found".
    spec fn missing(&self) -> bool;

    /// Tells whether this is a failure that says "not found".
    fn does_not_exist(self) -> (missing: bool)
        ensures
            missing == self.missing(),
    ;
}

impl IoResultUtils for &IoFailure {
    open spec fn missing(&self) -> bool {
        self.code == NOT_FOUND
    }

    fn does_not_exist(self) -> (missing: bool) {
        self.code == NOT_FOUND
    }
}

impl IoResultUtils for &Response {
    open spec fn missing(&self) -> bool {
        self@ matches ResponseView::Failed(failure) && failure.code == NOT_FOUND
    }

    fn does_not_exist(self) -> (missing: bool) {
        match self {
            Response::Failed(failure) => failure.code == NOT_FOUND,
            _ => false,
        }
    }
}

/// `bytes` between double quotes.
pub open spec fn quoted(bytes: Seq<u8>) -> Seq<u8> {
    "\"".spec_bytes() + bytes + "\"".spec_bytes()
}

/// The first `count` items of `items`, each between double quotes, with
/// `", "` between one and the next.
pub open spec fn quoted_list(items: Seq<Seq<u8>>, count: nat) -> Seq<u8>
    decreases count,
{
    if count == 0 || count > items.len() {
        Seq::empty()
    } else if count == 1 {
        quoted(items[0])
    } else {
        quoted_list(items, (count - 1) as nat) + ", ".spec_bytes() + quoted(items[count - 1])
    }
}

/// What the failure of `request` is called, without the failure itself.
pub open spec fn failure_line(request: RequestView) -> Seq<u8> {
    match request {
        RequestView::MountId { path } => "Failed to stat ".spec_bytes() + quoted(path),
        RequestView::CreateDirAll { path } => "Failed to create directory ".spec_bytes() + quoted(
            path,
        ),
        RequestView::MountOverlay { target, options } => "Failed to mount directory ".spec_bytes()
            + quoted(target),
        RequestView::BindRecursive { source, target } =>
            "Failed to bind mount directory ".spec_bytes() + quoted(target),
        RequestView::MakeDownstream { target } => "Failed to enslave mount ".spec_bytes() + quoted(
            target,
        ),
        RequestView::Unmount { target, detach } => "Failed to unmount directory ".spec_bytes()
            + quoted(target),
        RequestView::RemoveDirAll { path } => "Failed to delete directory ".spec_bytes() + quoted(
            path,
        ),
        RequestView::ReadDir { path } => "Failed to open directory ".spec_bytes() + quoted(path),
        RequestView::Write { bytes } => "Failed to write to stdout".spec_bytes(),
        RequestView::BecomeRoot => "Failed to become root".spec_bytes(),
        RequestView::Capabilities => "Failed to retrieve capabilities".spec_bytes(),
        RequestView::ExecutablePath => "Failed to read the path of the executable".spec_bytes(),
        RequestView::CurrentDir => "Failed to get current directory".spec_bytes(),
        RequestView::ChangeRoot { path } => "Failed to change root ".spec_bytes() + quoted(path),
        RequestView::ChangeDir { path } => "Failed to change current directory ".spec_bytes()
            + quoted(path),
        RequestView::Exec { command, uid } => "Failed to exec [".spec_bytes() + quoted_list(
            command,
            command.len(),
        ) + "]".spec_bytes(),
    }
}

/// The report of an I/O error: the system's description of the failure,
/// then the line that says what was being attempted.
pub open spec fn io_report(failure: IoFailureView, line: Seq<u8>) -> ReportView {
    ReportView { kind: Error::Io, context: seq![failure.description, line] }
}

/// The report of `request` having failed with `failure`.
pub open spec fn failure_report(request: RequestView, failure: IoFailureView) -> ReportView {
    io_report(failure, failure_line(request))
}

/// `prefix` followed by `bytes` between double quotes.
fn line_with(prefix: &str, bytes: &[u8]) -> (line: Vec<u8>)
    ensures
        line@ == prefix.spec_bytes() + quoted(bytes@),
{
    let mut line = prefix.as_bytes_vec();
    line.extend_from_slice("\"".as_bytes());
    line.extend_from_slice(bytes);
    line.extend_from_slice("\"".as_bytes());
    assert(line@ =~= prefix.spec_bytes() + quoted(bytes@));
    line
}

/// The line that names a command which could not be run.
fn exec_line(command: &Vec<Vec<u8>>) -> (line: Vec<u8>)
    ensures
        line@ == "Failed to exec [".spec_bytes() + quoted_list(
            views(command@),
            command@.len(),
        ) + "]".spec_bytes(),
{
    let mut line = "Failed to exec [".as_bytes_vec();
    let ghost head = line@;
    let ghost items = views(command@);
    let mut at: usize = 0;
    while at < command.len()
        invariant
            at <= command.len(),
            items == views(command@),
            line@ == head + quoted_list(items, at as nat),
        decreases command.len() - at,
    {
        let ghost before = line@;
        if at > 0 {
            line.extend_from_slice(", ".as_bytes());
        }
        line.extend_from_slice("\"".as_bytes());
        line.extend_from_slice(command[at].as_slice());
        line.extend_from_slice("\"".as_bytes());
        proof {
            assert(items[at as int] == command@[at as int]@);
            if at == 0 {
                assert(quoted_list(items, 0) =~= Seq::<u8>::empty());
                assert(line@ =~= head + quoted_list(items, 1));
            } else {
                assert(line@ =~= before + ", ".spec_bytes() + quoted(items[at as int]));
                assert(line@ =~= head + quoted_list(items, (at + 1) as nat));
            }
        }
        at = at + 1;
    }
    line.extend_from_slice("]".as_bytes());
    line
}

impl Request {
    /// What the failure of this request is called.
    pub fn failure_line(&self) -> (line: Vec<u8>)
        ensures
            line@ == failure_line(self@),
    {
        match self {
            Request::MountId { path } => line_with("Failed to stat ", path.as_slice()),
            Request::CreateDirAll { path } => line_with(
                "Failed to create directory ",
                path.as_slice(),
            ),
            Request::MountOverlay { target, options } => line_with(
                "Failed to mount directory ",
                target.as_slice(),
            ),
            Request::BindRecursive { source, target } => line_with(
                "Failed to bind mount directory ",
                target.as_slice(),
            ),
            Request::MakeDownstream { target } => line_with(
                "Failed to enslave mount ",
                target.as_slice(),
            ),
            Request::Unmount { target, detach } => line_with(
                "Failed to unmount directory ",
                target.as_slice(),
            ),
            Request::RemoveDirAll { path } => line_with(
                "Failed to delete directory ",
                path.as_slice(),
            ),
            Request::ReadDir { path } => line_with("Failed to open directory ", path.as_slice()),
            Request::Write { bytes } => "Failed to write to stdout".as_bytes_vec(),
            Request::BecomeRoot => "Failed to become root".as_bytes_vec(),
            Request::Capabilities => "Failed to retrieve capabilities".as_bytes_vec(),
            Request::ExecutablePath => "Failed to read the path of the executable".as_bytes_vec(),
            Request::CurrentDir => "Failed to get current directory".as_bytes_vec(),
            Request::ChangeRoot { path } => line_with("Failed to change root ", path.as_slice()),
            Request::ChangeDir { path } => line_with(
                "Failed to change current directory ",
                path.as_slice(),
            ),
            Request::Exec { command, uid } => exec_line(command),
        }
    }
}

impl IoFailure {
    /// A copy of this failure.
    pub fn copy(&self) -> (copy: IoFailure)
        ensures
            copy@ == self@,
    {
        IoFailure {
            code: self.code,
            description: vstd::slice::slice_to_vec(self.description.as_slice()),
        }
    }

    /// The report of an I/O error that happened while doing what `line` says.
    pub fn map_io_err(self, line: Vec<u8>) -> (report: Report)
        ensures
            report@ == io_report(self@, line@),
    {
        let report = Report::new(Error::Io).attach(self.description).attach(
            line,
        );
        assert(report@.context =~= seq![self@.description, line@]);
        report
    }

    /// The report of `request` having failed in this way.
    pub fn report_for(self, request: &Request) -> (report: Report)
        ensures
            report@ == failure_report(request@, self@),
    {
        let line = request.failure_line();
        self.map_io_err(line)
    }
}

} // verus!
