//! The error surface: a closed set of error kinds, and a report that carries
//! a kind together with the chain of context lines gathered on the way up.

use vstd::prelude::*;
use vstd::string::*;
use crate::text::views;

verus! {

/// What went wrong, as one of four kinds.
#[derive(Clone, Copy, Debug, PartialEq, Eq, Structural)]
pub enum Error {
    /// A system call or a file operation failed.
    Io,
    /// An argument cannot be handed to the kernel (a path with a NUL byte).
    InvalidArgument,
    /// The named sandbox has no directory on disk.
    SessionNotFound,
    /// The process lacks the privileges that mounting needs.
    SetupRequired,
}

/// The sentence that describes each kind.
pub open spec fn kind_message(kind: Error) -> Seq<u8> {
    match kind {
        Error::Io => "An IO error occurred.".spec_bytes(),
        Error::InvalidArgument => "Invalid argument.".spec_bytes(),
        Error::SessionNotFound => "Session not found.".spec_bytes(),
        Error::SetupRequired => "Setup required.".spec_bytes(),
    }
}

/// The process exit code of each kind.
pub open spec fn kind_exit_code(kind: Error) -> u8 {
    match kind {
        Error::Io => 74,
        Error::InvalidArgument => 64,
        Error::SessionNotFound => 66,
        Error::SetupRequired => 78,
    }
}

impl Error {
    /// The sentence that describes this kind.
    pub fn message(self) -> (text: Vec<u8>)
        ensures
            text@ == kind_message(self),
    {
        match self {
            Error::Io => "An IO error occurred.".as_bytes_vec(),
            Error::InvalidArgument => "Invalid argument.".as_bytes_vec(),
            Error::SessionNotFound => "Session not found.".as_bytes_vec(),
            Error::SetupRequired => "Setup required.".as_bytes_vec(),
        }
    }

    /// The exit code with which the process ends after this kind of error.
    pub fn exit_code(self) -> (code: u8)
        ensures
            code == kind_exit_code(self),
            code != 0,
    {
        match self {
            Error::Io => 74,
            Error::InvalidArgument => 64,
            Error::SessionNotFound => 66,
            Error::SetupRequired => 78,
        }
    }
}

/// Two kinds with the same exit code are the same kind, and no kind exits
/// with the code of success.
pub proof fn exit_codes_tell_kinds_apart(a: Error, b: Error)
    ensures
        kind_exit_code(a) != 0,
        kind_exit_code(a) == kind_exit_code(b) ==> a == b,
{
}

/// The mathematical content of a [`Report`].
pub struct ReportView {
    pub kind: Error,
    pub context: Seq<Seq<u8>>,
}

impl ReportView {
    /// A report of `kind` that has gathered no context yet.
    pub open spec fn new(kind: Error) -> ReportView {
        ReportView { kind, context: Seq::empty() }
    }

    /// This report with `line` added as its newest context line.
    pub open spec fn attach(self, line: Seq<u8>) -> ReportView {
        ReportView { kind: self.kind, context: self.context.push(line) }
    }

    /// This report seen as a `kind` error: the sentence of the former kind
    /// joins the chain.
    pub open spec fn change(self, kind: Error) -> ReportView {
        ReportView { kind, context: self.context.push(kind_message(self.kind)) }
    }

    /// The first `count` context lines, newest last, each led by `": "`,
    /// written newest first.
    pub open spec fn chain(self, count: nat) -> Seq<u8>
        decreases count,
    {
        if count == 0 || count > self.context.len() {
            Seq::empty()
        } else {
            ": ".spec_bytes() + self.context[count - 1] + self.chain((count - 1) as nat)
        }
    }

    /// The one line that the user sees: the kind's sentence, then the
    /// context lines from the newest to the oldest.
    pub open spec fn render(self) -> Seq<u8> {
        kind_message(self.kind) + self.chain(self.context.len())
    }
}

/// An error kind with the context lines attached while it travelled up,
/// oldest first.
#[derive(Clone, Debug, PartialEq, Eq)]
pub struct Report {
    pub kind: Error,
    pub context: Vec<Vec<u8>>,
}

impl View for Report {
    type V = ReportView;

    open spec fn view(&self) -> ReportView {
        ReportView { kind: self.kind, context: views(self.context@) }
    }
}

impl Report {
    /// A report of `kind` with no context.
    pub fn new(kind: Error) -> (report: Report)
        ensures
            report@ == ReportView::new(kind),
    {
        let report = Report { kind, context: Vec::new() };
        assert(views(report.context@) =~= Seq::<Seq<u8>>::empty());
        report
    }

    /// Adds `line` as the newest context line.
    pub fn attach(self, line: Vec<u8>) -> (report: Report)
        ensures
            report@ == self@.attach(line@),
    {
        let mut context = self.context;
        context.push(line);
        let report = Report { kind: self.kind, context };
        assert(views(report.context@) =~= views(self.context@).push(line@));
        report
    }

    /// Turns the report into one of `kind`; the former kind's sentence
    /// stays in the chain.
    pub fn change_kind(self, kind: Error) -> (report: Report)
        ensures
            report@ == self@.change(kind),
    {
        let line = self.kind.message();
        let mut context = self.context;
        context.push(line);
        let report = Report { kind, context };
        assert(views(report.context@) =~= views(self.context@).push(line@));
        report
    }

    /// The exit code of the report's kind.
    pub fn exit_code(&self) -> (code: u8)
        ensures
            code == kind_exit_code(self@.kind),
            code != 0,
    {
        self.kind.exit_code()
    }

    /// The line shown to the user.
    pub fn render(&self) -> (line: Vec<u8>)
        ensures
            line@ == self@.render(),
    {
        let mut line = self.kind.message();
        let total = self.context.len();
        let mut taken: usize = 0;
        // Lines are written newest first: `taken` counts those already written.
        let ghost view = self@;
        let ghost head = kind_message(self.kind);
        while taken < total
            invariant
                taken <= total,
                total == self.context.len(),
                view == self@,
                head == kind_message(self.kind),
                head + view.chain(total as nat) == line@ + view.chain((total - taken) as nat),
            decreases total - taken,
        {
            let at = total - taken - 1;
            let ghost before = line@;
            line.extend_from_slice(": ".as_bytes());
            line.extend_from_slice(self.context[at].as_slice());
            taken = taken + 1;
            proof {
                let count = (at + 1) as nat;
                assert(view.context[at as int] == self.context[at as int]@);
                assert(view.chain(count) == ": ".spec_bytes() + view.context[count - 1]
                    + view.chain((count - 1) as nat));
                assert(line@ + view.chain(at as nat) =~= before + view.chain(count));
            }
        }
        assert(view.chain(0) =~= Seq::<u8>::empty());
        assert(line@ + view.chain(0) =~= line@);
        line
    }
}

} // verus!
