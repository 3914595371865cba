//! Listing, stopping and deleting sandboxes: one after the other, either
//! all that the sandbox directory holds or those of a given list of names.
//!
//! A [`Batch`] walks through its sandboxes in order and runs one
//! [`Lifecycle`] for each. The first error ends the batch.

use vstd::prelude::*;
use vstd::string::*;
use crate::error::{Report, ReportView};
use crate::lifecycle::{pending, Goal, Lifecycle, LifecycleView, Phase, Step, StepView};
use crate::store::{get_session_dir, get_sessions_dir, session_dir, sessions_dir};
use crate::syscall::{
    done_reply, entries_reply, entry_views, failure_line, failure_report, io_report, quoted,
    Entry, EntryView, IoFailure, IoFailureView, Request, RequestView, Response, ResponseView,
    NOT_FOUND,
};
use crate::text::views;

verus! {

/// The sandboxes to work on.
#[derive(Clone, Copy, Debug)]
pub enum Op<'a> {
    /// Every sandbox that the sandbox directory holds.
    All,
    /// The sandboxes of these names, in this order.
    List(&'a [Vec<u8>]),
}

/// What a batch does to each of its sandboxes.
#[derive(Clone, Copy, Debug, PartialEq, Eq, Structural)]
pub enum Job {
    /// Write its name, between brackets where it is active.
    List,
    /// Unmount it.
    Stop,
    /// Unmount and remove it.
    Delete,
}

/// The goal that a job sets for each sandbox.
pub open spec fn goal_of(job: Job) -> Goal {
    match job {
        Job::List => Goal::Query,
        Job::Stop => Goal::Stop,
        Job::Delete => Goal::Delete,
    }
}

/// What a listing writes for one sandbox: its name, between brackets where
/// it is active, after `", "` unless it is the first.
pub open spec fn list_piece(written: bool, name: Seq<u8>, is_active: bool) -> Seq<u8> {
    (if written {
        ", ".spec_bytes()
    } else {
        Seq::empty()
    }) + (if is_active {
        "[".spec_bytes() + name + "]".spec_bytes()
    } else {
        name
    })
}

/// What is said where an entry of the sandbox directory `root` cannot be
/// read.
pub open spec fn unreadable_line(root: Seq<u8>) -> Seq<u8> {
    "Failed to read directory ".spec_bytes() + quoted(root)
}

/// The names of a list, as entries of a listing.
pub open spec fn named(names: Seq<Seq<u8>>) -> Seq<EntryView> {
    names.map_values(|name: Seq<u8>| EntryView::Name(name))
}

/// Where a batch stands.
pub enum StageView {
    /// It waits for the listing of the sandbox directory.
    Listing,
    /// It runs a lifecycle for the current sandbox.
    Visiting(LifecycleView),
    /// It waits for the current sandbox's name to be written.
    Writing,
    /// It has come to its end.
    Finished,
}

/// The mathematical content of a [`Batch`].
pub struct BatchView {
    pub job: Job,
    /// The directory that holds the sandboxes.
    pub root: Seq<u8>,
    /// The sandboxes to visit.
    pub queue: Seq<EntryView>,
    /// How many of them are done with.
    pub at: int,
    /// Whether the listing has written a name yet.
    pub written: bool,
    pub stage: StageView,
}

impl BatchView {
    /// The batch at its end.
    pub open spec fn finished(self) -> BatchView {
        BatchView { stage: StageView::Finished, ..self }
    }

    /// Turns to the sandbox at position `at`: the batch ends well where
    /// there is none left, ends with an I/O error where the entry could not
    /// be read, and else begins the sandbox's lifecycle.
    pub open spec fn visit(self, at: int) -> (BatchView, StepView<()>) {
        let moved = BatchView { at, ..self };
        if !(0 <= at < self.queue.len()) {
            (moved.finished(), StepView::Finish(Ok(())))
        } else {
            match self.queue[at] {
                EntryView::Unreadable(failure) => (
                    moved.finished(),
                    StepView::Finish(Err(io_report(failure, unreadable_line(self.root)))),
                ),
                EntryView::Name(name) => {
                    let dir = session_dir(self.root, name);
                    let lifecycle = LifecycleView {
                        goal: goal_of(self.job),
                        dir,
                        phase: Phase::ProbeMerged,
                    };
                    (
                        BatchView { stage: StageView::Visiting(lifecycle), ..moved },
                        StepView::Perform(pending(dir, Phase::ProbeMerged)),
                    )
                },
            }
        }
    }

    /// Turns to the sandbox after the current one.
    pub open spec fn onward(self) -> (BatchView, StepView<()>) {
        self.visit(
            if self.at < self.queue.len() {
                self.at + 1
            } else {
                self.at
            },
        )
    }

    /// The name of the current sandbox.
    pub open spec fn current_name(self) -> Seq<u8> {
        if 0 <= self.at < self.queue.len() {
            match self.queue[self.at] {
                EntryView::Name(name) => name,
                EntryView::Unreadable(failure) => Seq::empty(),
            }
        } else {
            Seq::empty()
        }
    }

    /// What follows the listing of the sandbox directory: its entries are
    /// visited in the order in which they were read. A sandbox directory
    /// that does not exist holds no sandboxes.
    pub open spec fn listed(self, response: ResponseView) -> (BatchView, StepView<()>) {
        match entries_reply(response) {
            Ok(entries) => (BatchView { queue: entries, ..self }).visit(0),
            Err(failure) => if failure.code == NOT_FOUND {
                (self.finished(), StepView::Finish(Ok(())))
            } else {
                (
                    self.finished(),
                    StepView::Finish(
                        Err(failure_report(RequestView::ReadDir { path: self.root }, failure)),
                    ),
                )
            },
        }
    }

    /// What follows a step of the current sandbox's lifecycle: its next
    /// request is passed on and its error ends the batch; once it has ended
    /// well, a listing writes the sandbox's name and the other jobs turn to
    /// the next sandbox.
    pub open spec fn visited(self, lifecycle: LifecycleView, step: StepView<bool>) -> (
        BatchView,
        StepView<()>,
    ) {
        match step {
            StepView::Perform(request) => (
                BatchView { stage: StageView::Visiting(lifecycle), ..self },
                StepView::Perform(request),
            ),
            StepView::Finish(Err(report)) => (self.finished(), StepView::Finish(Err(report))),
            StepView::Finish(Ok(is_active)) => if self.job == Job::List {
                (
                    BatchView { stage: StageView::Writing, ..self },
                    StepView::Perform(
                        RequestView::Write {
                            bytes: list_piece(self.written, self.current_name(), is_active),
                        },
                    ),
                )
            } else {
                self.onward()
            },
        }
    }

    /// What follows the writing of a name.
    pub open spec fn wrote(self, response: ResponseView) -> (BatchView, StepView<()>) {
        match done_reply(response) {
            Ok(_) => (BatchView { written: true, ..self }).onward(),
            Err(failure) => (
                self.finished(),
                StepView::Finish(
                    Err(io_report(failure, "Failed to write to stdout".spec_bytes())),
                ),
            ),
        }
    }

    /// The state and the step after `response`.
    pub open spec fn advance(self, response: ResponseView) -> (BatchView, StepView<()>) {
        match self.stage {
            StageView::Listing => self.listed(response),
            StageView::Visiting(lifecycle) => {
                let (next, step) = lifecycle.advance(response);
                self.visited(next, step)
            },
            StageView::Writing => self.wrote(response),
            StageView::Finished => (
                self,
                StepView::Finish(
                    Err(io_report(crate::syscall::unexpected(), "No request is pending".spec_bytes())),
                ),
            ),
        }
    }

    /// The batch as it begins, and its first step: all sandboxes are found
    /// by listing the sandbox directory, those of a list are visited at
    /// once.
    pub open spec fn begin(job: Job, names: Option<Seq<Seq<u8>>>, root: Seq<u8>) -> (
        BatchView,
        StepView<()>,
    ) {
        let batch = BatchView {
            job,
            root,
            queue: Seq::empty(),
            at: 0,
            written: false,
            stage: StageView::Listing,
        };
        match names {
            None => (batch, StepView::Perform(RequestView::ReadDir { path: root })),
            Some(names) => (BatchView { queue: named(names), ..batch }).visit(0),
        }
    }
}

/// Where a batch stands.
#[derive(Debug)]
enum Stage {
    Listing,
    Visiting(Lifecycle),
    Writing,
    Finished,
}

/// A job under way on a sequence of sandboxes.
#[derive(Debug)]
pub struct Batch {
    job: Job,
    root: Vec<u8>,
    queue: Vec<Entry>,
    at: usize,
    written: bool,
    stage: Stage,
}

impl View for Batch {
    type V = BatchView;

    closed spec fn view(&self) -> BatchView {
        BatchView {
            job: self.job,
            root: self.root@,
            queue: entry_views(self.queue@),
            at: self.at as int,
            written: self.written,
            stage: match self.stage {
                Stage::Listing => StageView::Listing,
                Stage::Visiting(lifecycle) => StageView::Visiting(lifecycle@),
                Stage::Writing => StageView::Writing,
                Stage::Finished => StageView::Finished,
            },
        }
    }
}

/// The names that `sessions` lists, where it lists any.
pub open spec fn names_of(sessions: Op) -> Option<Seq<Seq<u8>>> {
    match sessions {
        Op::All => None,
        Op::List(names) => Some(views(names@)),
    }
}

fn goal_for(job: Job) -> (goal: Goal)
    ensures
        goal == goal_of(job),
{
    match job {
        Job::List => Goal::Query,
        Job::Stop => Goal::Stop,
        Job::Delete => Goal::Delete,
    }
}

fn piece(written: bool, name: &[u8], is_active: bool) -> (bytes: Vec<u8>)
    ensures
        bytes@ == list_piece(written, name@, is_active),
{
    let mut bytes: Vec<u8> = Vec::new();
    if written {
        bytes.extend_from_slice(", ".as_bytes());
    }
    if is_active {
        bytes.extend_from_slice("[".as_bytes());
        bytes.extend_from_slice(name);
        bytes.extend_from_slice("]".as_bytes());
    } else {
        bytes.extend_from_slice(name);
    }
    assert(bytes@ =~= list_piece(written, name@, is_active));
    bytes
}

fn entries_of(names: &[Vec<u8>]) -> (entries: Vec<Entry>)
    ensures
        entry_views(entries@) == named(views(names@)),
{
    let mut entries: Vec<Entry> = Vec::new();
    let mut at: usize = 0;
    while at < names.len()
        invariant
            at <= names.len(),
            entry_views(entries@) == named(views(names@.subrange(0, at as int))),
        decreases names.len() - at,
    {
        let name = vstd::slice::slice_to_vec(names[at].as_slice());
        let ghost before = entries@;
        entries.push(Entry::Name(name));
        proof {
            assert(names@.subrange(0, at + 1) =~= names@.subrange(0, at as int).push(
                names@[at as int],
            ));
            assert(entry_views(entries@) =~= entry_views(before).push(EntryView::Name(name@)));
            assert(entry_views(entries@) =~= named(views(names@.subrange(0, at + 1))));
        }
        at = at + 1;
    }
    assert(names@.subrange(0, at as int) =~= names@);
    entries
}

impl Batch {
    fn finish(self, result: Result<(), Report>) -> (next: (Batch, Step<()>))
        ensures
            next.0@ == self@.finished(),
            next.1 == Step::Finish(result),
    {
        let mut batch = self;
        batch.stage = Stage::Finished;
        (batch, Step::Finish(result))
    }

    fn visit(self, at: usize) -> (next: (Batch, Step<()>))
        ensures
            (next.0@, next.1@) == self@.visit(at as int),
    {
        let mut batch = self;
        batch.at = at;
        if at >= batch.queue.len() {
            return batch.finish(Ok(()));
        }
        let ghost entries = entry_views(batch.queue@);
        assert(entries[at as int] == batch.queue@[at as int]@);
        match &batch.queue[at] {
            Entry::Name(name) => {
                let dir = get_session_dir(batch.root.as_slice(), name.as_slice());
                let (lifecycle, request) = Lifecycle::begin(goal_for(batch.job), dir);
                batch.stage = Stage::Visiting(lifecycle);
                (batch, Step::Perform(request))
            },
            Entry::Unreadable(failure) => {
                let mut line = "Failed to read directory ".as_bytes_vec();
                line.extend_from_slice("\"".as_bytes());
                line.extend_from_slice(batch.root.as_slice());
                line.extend_from_slice("\"".as_bytes());
                assert(line@ =~= unreadable_line(batch.root@));
                let report = failure.copy().map_io_err(line);
                batch.finish(Err(report))
            },
        }
    }

    fn begin(job: Job, sessions: Op, root: Vec<u8>) -> (start: (Batch, Step<()>))
        ensures
            (start.0@, start.1@) == BatchView::begin(job, names_of(sessions), root@),
    {
        match sessions {
            Op::All => {
                let request = Request::ReadDir { path: vstd::slice::slice_to_vec(root.as_slice()) };
                let batch = Batch {
                    job,
                    root,
                    queue: Vec::new(),
                    at: 0,
                    written: false,
                    stage: Stage::Listing,
                };
                assert(entry_views(batch.queue@) =~= Seq::<EntryView>::empty());
                (batch, Step::Perform(request))
            },
            Op::List(names) => {
                let batch = Batch {
                    job,
                    root,
                    queue: entries_of(names),
                    at: 0,
                    written: false,
                    stage: Stage::Listing,
                };
                batch.visit(0)
            },
        }
    }

    /// What the batch does to each sandbox.
    pub fn job(&self) -> (job: Job)
        ensures
            job == self@.job,
    {
        self.job
    }

    /// Takes in how the pending request went, and says what comes next: the
    /// next request, or the result of the batch.
    pub fn advance(self, response: Response) -> (next: (Batch, Step<()>))
        ensures
            (next.0@, next.1@) == self@.advance(response@),
    {
        let Batch { job, root, queue, at, written, stage } = self;
        let next_at = if at < queue.len() {
            at + 1
        } else {
            at
        };
        match stage {
            Stage::Listing => {
                let batch = Batch { job, root, queue, at, written, stage: Stage::Listing };
                match response.into_entries() {
                    Ok(entries) => {
                        let batch = Batch { queue: entries, ..batch };
                        batch.visit(0)
                    },
                    Err(failure) => {
                        if failure.code == NOT_FOUND {
                            batch.finish(Ok(()))
                        } else {
                            let request = Request::ReadDir {
                                path: vstd::slice::slice_to_vec(batch.root.as_slice()),
                            };
                            let report = failure.report_for(&request);
                            batch.finish(Err(report))
                        }
                    },
                }
            },
            Stage::Visiting(lifecycle) => {
                let (lifecycle, step) = lifecycle.advance(response);
                match step {
                    Step::Perform(request) => {
                        let batch = Batch {
                            job,
                            root,
                            queue,
                            at,
                            written,
                            stage: Stage::Visiting(lifecycle),
                        };
                        (batch, Step::Perform(request))
                    },
                    Step::Finish(Err(report)) => {
                        let batch = Batch { job, root, queue, at, written, stage: Stage::Finished };
                        (batch, Step::Finish(Err(report)))
                    },
                    Step::Finish(Ok(is_active)) => {
                        let batch = Batch { job, root, queue, at, written, stage: Stage::Writing };
                        if job == Job::List {
                            let ghost entries = entry_views(batch.queue@);
                            let bytes = if at < batch.queue.len() {
                                assert(entries[at as int] == batch.queue@[at as int]@);
                                match &batch.queue[at] {
                                    Entry::Name(name) => piece(
                                        written,
                                        name.as_slice(),
                                        is_active,
                                    ),
                                    Entry::Unreadable(failure) => {
                                        let empty: Vec<u8> = Vec::new();
                                        piece(written, empty.as_slice(), is_active)
                                    },
                                }
                            } else {
                                let empty: Vec<u8> = Vec::new();
                                piece(written, empty.as_slice(), is_active)
                            };
                            (batch, Step::Perform(Request::Write { bytes }))
                        } else {
                            batch.visit(next_at)
                        }
                    },
                }
            },
            Stage::Writing => {
                let batch = Batch { job, root, queue, at, written, stage: Stage::Writing };
                match response.into_done() {
                    Ok(_) => {
                        let batch = Batch { written: true, ..batch };
                        batch.visit(next_at)
                    },
                    Err(failure) => {
                        let report = failure.map_io_err("Failed to write to stdout".as_bytes_vec());
                        batch.finish(Err(report))
                    },
                }
            },
            Stage::Finished => {
                let batch = Batch { job, root, queue, at, written, stage: Stage::Finished };
                let report = crate::syscall::stray().map_io_err(
                    "No request is pending".as_bytes_vec(),
                );
                (batch, Step::Finish(Err(report)))
            },
        }
    }
}

/// Begins to make the sandbox `dir` active: it is created and mounted
/// unless it is mounted already.
pub fn maybe_create_session(dir: Vec<u8>) -> (start: (Lifecycle, Request))
    ensures
        start.0@ == (LifecycleView { goal: Goal::Activate, dir: dir@, phase: Phase::ProbeMerged }),
        start.1@ == pending(dir@, Phase::ProbeMerged),
{
    Lifecycle::begin(Goal::Activate, dir)
}

/// Begins to list the sandboxes under the user's cache directory: one line
/// of names with `", "` between them, the active ones between brackets.
/// Nothing is written where the sandbox directory does not exist.
pub fn list(cache_dir: Option<Vec<u8>>) -> (start: (Batch, Step<()>))
    ensures
        (start.0@, start.1@) == BatchView::begin(
            Job::List,
            None,
            sessions_dir(
                match cache_dir {
                    Some(dir) => Some(dir@),
                    None => None,
                },
            ),
        ),
{
    Batch::begin(Job::List, Op::All, get_sessions_dir(cache_dir))
}

/// Begins to stop `sessions`: each one is unmounted if it is mounted.
pub fn stop(sessions: Op, cache_dir: Option<Vec<u8>>) -> (start: (Batch, Step<()>))
    ensures
        (start.0@, start.1@) == BatchView::begin(
            Job::Stop,
            names_of(sessions),
            sessions_dir(
                match cache_dir {
                    Some(dir) => Some(dir@),
                    None => None,
                },
            ),
        ),
{
    Batch::begin(Job::Stop, sessions, get_sessions_dir(cache_dir))
}

/// Begins to delete `sessions`: each one is unmounted if it is mounted, and
/// then removed from disk.
pub fn delete(sessions: Op, cache_dir: Option<Vec<u8>>) -> (start: (Batch, Step<()>))
    ensures
        (start.0@, start.1@) == BatchView::begin(
            Job::Delete,
            names_of(sessions),
            sessions_dir(
                match cache_dir {
                    Some(dir) => Some(dir@),
                    None => None,
                },
            ),
        ),
{
    Batch::begin(Job::Delete, sessions, get_sessions_dir(cache_dir))
}

} // verus!
