//! Running a command inside a sandbox: pass the privilege check, make the
//! sandbox active, enter it, and hand the process over to the command.

use vstd::prelude::*;
use crate::error::{Report, ReportView};
use crate::privilege::{asked, first_check, judge, request_of, decide, validate_permissions, Check, Ruling, Verdict, ROOT};
use crate::lifecycle::{pending, Goal, Lifecycle, LifecycleView, Phase, Step, StepView};
use crate::mounts::merged_dir;
use crate::path_undo::TmpPath;
use crate::store::{get_session_dir, get_sessions_dir, session_dir, sessions_dir};
use crate::syscall::{
    done_reply, failure_report, path_reply, IoFailure, IoFailureView, Request, RequestView,
    Response, ResponseView,
};
use crate::text::{copy_all, views};

verus! {

/// Whether `byte` is a decimal digit.
pub open spec fn is_digit(byte: u8) -> bool {
    48 <= byte <= 57
}

/// Whether `text` is made of decimal digits alone.
pub open spec fn all_digits(text: Seq<u8>) -> bool {
    forall|i: int| 0 <= i < text.len() ==> is_digit(#[trigger] text[i])
}

/// The number that the decimal digits `text` write.
pub open spec fn decimal(text: Seq<u8>) -> nat
    decreases text.len(),
{
    if text.len() == 0 {
        0
    } else {
        decimal(text.drop_last()) * 10 + (text.last() - 48) as nat
    }
}

/// `text` without the plus sign that may lead it.
pub open spec fn unsigned(text: Seq<u8>) -> Seq<u8> {
    if text.len() > 0 && text[0] == 43 {
        text.drop_first()
    } else {
        text
    }
}

/// The user id that `text` writes: one or more decimal digits, after a plus
/// sign or none, whose number fits 32 bits.
pub open spec fn uid_of(text: Seq<u8>) -> Option<u32> {
    let digits = unsigned(text);
    if digits.len() > 0 && all_digits(digits) && decimal(digits) <= u32::MAX {
        Some(decimal(digits) as u32)
    } else {
        None
    }
}

/// More digits never write a smaller number.
pub proof fn decimal_grows(text: Seq<u8>, count: int)
    requires
        0 <= count <= text.len(),
        all_digits(text),
    ensures
        decimal(text.take(count)) <= decimal(text),
    decreases text.len() - count,
{
    if count < text.len() {
        let longer = text.take(count + 1);
        assert(longer.drop_last() =~= text.take(count));
        assert(is_digit(text[count]));
        assert(longer.last() == text[count]);
        decimal_grows(text, count + 1);
    } else {
        assert(text.take(count) =~= text);
    }
}

/// Reads a user id from `text`.
pub fn parse_uid(text: &[u8]) -> (uid: Option<u32>)
    ensures
        uid == uid_of(text@),
{
    let start: usize = if text.len() > 0 && text[0] == 43 {
        1
    } else {
        0
    };
    let ghost digits = unsigned(text@);
    assert(digits =~= text@.skip(start as int));
    if start == text.len() {
        return None;
    }
    let mut value: u64 = 0;
    let mut at: usize = start;
    while at < text.len()
        invariant
            start <= at <= text.len(),
            digits == text@.skip(start as int),
            digits == unsigned(text@),
            all_digits(digits.take(at - start)),
            value == decimal(digits.take(at - start)),
            value <= u32::MAX,
        decreases text.len() - at,
    {
        let byte = text[at];
        let ghost seen = digits.take(at - start);
        let ghost more = digits.take(at - start + 1);
        proof {
            assert(more.drop_last() =~= seen);
            assert(more.last() == byte);
        }
        if byte < 48 || byte > 57 {
            assert(!is_digit(digits[at - start]));
            return None;
        }
        let next = value * 10 + (byte - 48) as u64;
        assert(next == decimal(more));
        assert(all_digits(more)) by {
            assert forall|i: int| 0 <= i < more.len() implies is_digit(#[trigger] more[i]) by {
                if i < seen.len() {
                    assert(seen[i] == more[i]);
                }
            }
        }
        if next > u32::MAX as u64 {
            proof {
                if all_digits(digits) {
                    decimal_grows(digits, at - start + 1);
                }
            }
            return None;
        }
        value = next;
        at = at + 1;
    }
    assert(digits.take(at - start) =~= digits);
    Some(value as u32)
}

/// The user as whom the command runs, where it is another than the one of
/// the process: none where the command is to stay root; else the user who
/// runs the process unless that is root; else the user whom `SUDO_UID`
/// names, where it names one.
pub open spec fn command_uid(uid: u32, sudo_uid: Option<Seq<u8>>, stay_root: bool) -> Option<u32> {
    if stay_root {
        None
    } else if uid != ROOT {
        Some(uid)
    } else {
        match sudo_uid {
            Some(text) => uid_of(text),
            None => None,
        }
    }
}

/// Decides as whom the command runs.
pub fn downgrade(uid: u32, sudo_uid: Option<&[u8]>, stay_root: bool) -> (target: Option<u32>)
    ensures
        target == command_uid(
            uid,
            match sudo_uid {
                Some(text) => Some(text@),
                None => None,
            },
            stay_root,
        ),
{
    if stay_root {
        None
    } else if uid != ROOT {
        Some(uid)
    } else {
        match sudo_uid {
            Some(text) => parse_uid(text),
            None => None,
        }
    }
}

/// A command that does not stay root never runs as root on the word of a
/// process that a plain user started.
pub proof fn plain_user_keeps_its_uid(uid: u32, sudo_uid: Option<Seq<u8>>)
    requires
        uid != ROOT,
    ensures
        command_uid(uid, sudo_uid, false) == Some(uid),
{
}

/// Where a run stands.
pub enum RunStageView {
    /// Checking privileges, waiting for the answer to a check.
    Gate(Check),
    /// Making the sandbox active.
    Session(LifecycleView),
    /// Waiting for the current working directory.
    CurrentDir,
    /// Waiting for the change of root.
    ChangeRoot,
    /// Waiting for the change of the working directory.
    ChangeDir,
    /// Waiting for the command: an answer means that it did not take over.
    Exec,
    /// At its end.
    Finished,
}

/// The mathematical content of a [`Run`].
pub struct RunView {
    /// The sandbox directory.
    pub dir: Seq<u8>,
    /// The command and its arguments.
    pub command: Seq<Seq<u8>>,
    /// The user as whom the command runs, where it is another.
    pub target: Option<u32>,
    /// The working directory from before the change of root.
    pub cwd: Seq<u8>,
    pub stage: RunStageView,
}

impl RunView {
    /// The run at its end, with `result`.
    pub open spec fn finish(self, result: Result<(), ReportView>) -> (RunView, StepView<()>) {
        (RunView { stage: RunStageView::Finished, ..self }, StepView::Finish(result))
    }

    /// The run in `stage`, asking for `request`.
    pub open spec fn ask(self, stage: RunStageView, request: RequestView) -> (
        RunView,
        StepView<()>,
    ) {
        (RunView { stage, ..self }, StepView::Perform(request))
    }

    /// The request that changes the root to the sandbox's union view.
    pub open spec fn change_root(self) -> RequestView {
        RequestView::ChangeRoot { path: merged_dir(self.dir) }
    }

    /// The request that restores the working directory inside the sandbox.
    pub open spec fn change_dir(self) -> RequestView {
        RequestView::ChangeDir { path: self.cwd }
    }

    /// The request that hands the process over to the command.
    pub open spec fn exec(self) -> RequestView {
        RequestView::Exec { command: self.command, uid: self.target }
    }

    /// What follows a verdict on the privileges: the next check, the
    /// activation of the sandbox once they are granted, or the end.
    pub open spec fn gated(self, verdict: Verdict) -> (RunView, StepView<()>) {
        match verdict {
            Verdict::Continue(check) => self.ask(RunStageView::Gate(check), asked(check)),
            Verdict::Granted => self.ask(
                RunStageView::Session(
                    LifecycleView {
                        goal: Goal::Activate,
                        dir: self.dir,
                        phase: Phase::ProbeMerged,
                    },
                ),
                pending(self.dir, Phase::ProbeMerged),
            ),
            Verdict::Refused(report) => self.finish(Err(report)),
        }
    }

    /// What follows a step of the activation: once the sandbox is active,
    /// the working directory is asked for, before the root changes.
    pub open spec fn activated(self, lifecycle: LifecycleView, step: StepView<bool>) -> (
        RunView,
        StepView<()>,
    ) {
        match step {
            StepView::Perform(request) => self.ask(RunStageView::Session(lifecycle), request),
            StepView::Finish(Err(report)) => self.finish(Err(report)),
            StepView::Finish(Ok(_)) => self.ask(RunStageView::CurrentDir, RequestView::CurrentDir),
        }
    }

    /// The state and the step after `response`.
    ///
    /// Inside the sandbox the order is fixed: the working directory is
    /// read, the root is changed to the union view, the working directory
    /// is set again, and the command takes over.
    #[verifier::opaque]
    pub open spec fn advance(self, response: ResponseView) -> (RunView, StepView<()>) {
        match self.stage {
            RunStageView::Gate(check) => self.gated(judge(check, response)),
            RunStageView::Session(lifecycle) => {
                let (next, step) = lifecycle.advance(response);
                self.activated(next, step)
            },
            RunStageView::CurrentDir => match path_reply(response) {
                Ok(cwd) => (RunView { cwd, ..self }).ask(
                    RunStageView::ChangeRoot,
                    self.change_root(),
                ),
                Err(failure) => self.finish(
                    Err(failure_report(RequestView::CurrentDir, failure)),
                ),
            },
            RunStageView::ChangeRoot => match done_reply(response) {
                Ok(_) => self.ask(RunStageView::ChangeDir, self.change_dir()),
                Err(failure) => self.finish(Err(failure_report(self.change_root(), failure))),
            },
            RunStageView::ChangeDir => match done_reply(response) {
                Ok(_) => self.ask(RunStageView::Exec, self.exec()),
                Err(failure) => self.finish(Err(failure_report(self.change_dir(), failure))),
            },
            RunStageView::Exec => match done_reply(response) {
                Ok(_) => self.finish(Ok(())),
                Err(failure) => self.finish(Err(failure_report(self.exec(), failure))),
            },
            RunStageView::Finished => self.finish(
                Err(failure_report(RequestView::CurrentDir, crate::syscall::unexpected())),
            ),
        }
    }

    /// The run as it begins, and its first step.
    pub open spec fn begin(
        uid: u32,
        dir: Seq<u8>,
        command: Seq<Seq<u8>>,
        target: Option<u32>,
    ) -> (RunView, StepView<()>) {
        (RunView {
            dir,
            command,
            target,
            cwd: Seq::empty(),
            stage: RunStageView::Finished,
        }).gated(first_check(uid))
    }
}

#[derive(Debug)]
enum RunStage {
    Gate(Check),
    Session(Lifecycle),
    CurrentDir,
    ChangeRoot,
    ChangeDir,
    Exec,
    Finished,
}

/// A command on its way into a sandbox.
#[derive(Debug)]
pub struct Run {
    dir: Vec<u8>,
    command: Vec<Vec<u8>>,
    target: Option<u32>,
    cwd: Vec<u8>,
    stage: RunStage,
}

impl View for Run {
    type V = RunView;

    closed spec fn view(&self) -> RunView {
        RunView {
            dir: self.dir@,
            command: views(self.command@),
            target: self.target,
            cwd: self.cwd@,
            stage: match self.stage {
                RunStage::Gate(check) => RunStageView::Gate(check),
                RunStage::Session(lifecycle) => RunStageView::Session(lifecycle@),
                RunStage::CurrentDir => RunStageView::CurrentDir,
                RunStage::ChangeRoot => RunStageView::ChangeRoot,
                RunStage::ChangeDir => RunStageView::ChangeDir,
                RunStage::Exec => RunStageView::Exec,
                RunStage::Finished => RunStageView::Finished,
            },
        }
    }
}

/// What the caller knows of the process and its surroundings when a run
/// begins.
#[derive(Debug)]
pub struct Environment {
    /// The id of the user who runs the process.
    pub uid: u32,
    /// The user's cache directory, where there is one.
    pub cache_dir: Option<Vec<u8>>,
    /// The value of `SUDO_UID`, where it is set.
    pub sudo_uid: Option<Vec<u8>>,
}

impl Run {
    fn finish(self, result: Result<(), Report>) -> (next: (Run, Step<()>))
        ensures
            (next.0@, next.1@) == self@.finish(
                match result {
                    Ok(_) => Ok(()),
                    Err(report) => Err(report@),
                },
            ),
    {
        let mut run = self;
        run.stage = RunStage::Finished;
        (run, Step::Finish(result))
    }

    fn gated(self, ruling: Ruling) -> (next: (Run, Step<()>))
        ensures
            (next.0@, next.1@) == self@.gated(ruling@),
    {
        let mut run = self;
        match ruling {
            Ruling::Continue(check) => {
                run.stage = RunStage::Gate(check);
                (run, Step::Perform(request_of(check)))
            },
            Ruling::Granted => {
                let dir = vstd::slice::slice_to_vec(run.dir.as_slice());
                let (lifecycle, request) = Lifecycle::begin(Goal::Activate, dir);
                run.stage = RunStage::Session(lifecycle);
                (run, Step::Perform(request))
            },
            Ruling::Refused(report) => run.finish(Err(report)),
        }
    }

    fn change_root(&mut self) -> (request: Request)
        ensures
            request@ == old(self)@.change_root(),
            final(self)@ == old(self)@,
    {
        let merged = TmpPath::new(&mut self.dir, "merged".as_bytes());
        let path = merged.to_vec();
        merged.release();
        Request::ChangeRoot { path }
    }

    fn change_dir(&self) -> (request: Request)
        ensures
            request@ == self@.change_dir(),
    {
        Request::ChangeDir { path: vstd::slice::slice_to_vec(self.cwd.as_slice()) }
    }

    fn exec(&self) -> (request: Request)
        ensures
            request@ == self@.exec(),
    {
        Request::Exec { command: copy_all(self.command.as_slice()), uid: self.target }
    }

    /// Takes in how the pending request went, and says what comes next: the
    /// next request, or the result of the run.
    pub fn advance(self, response: Response) -> (next: (Run, Step<()>))
        ensures
            (next.0@, next.1@) == self@.advance(response@),
    {
        reveal(RunView::advance);
        let Run { dir, command, target, cwd, stage } = self;
        match stage {
            RunStage::Gate(check) => {
                let run = Run { dir, command, target, cwd, stage: RunStage::Gate(check) };
                run.gated(decide(check, response))
            },
            RunStage::Session(lifecycle) => {
                let (lifecycle, step) = lifecycle.advance(response);
                match step {
                    Step::Perform(request) => {
                        let run = Run {
                            dir,
                            command,
                            target,
                            cwd,
                            stage: RunStage::Session(lifecycle),
                        };
                        (run, Step::Perform(request))
                    },
                    Step::Finish(Err(report)) => {
                        let run = Run { dir, command, target, cwd, stage: RunStage::Finished };
                        (run, Step::Finish(Err(report)))
                    },
                    Step::Finish(Ok(_)) => {
                        let run = Run { dir, command, target, cwd, stage: RunStage::CurrentDir };
                        (run, Step::Perform(Request::CurrentDir))
                    },
                }
            },
            RunStage::CurrentDir => {
                let run = Run { dir, command, target, cwd, stage: RunStage::CurrentDir };
                match response.into_path() {
                    Ok(cwd) => {
                        let mut run = Run { cwd, stage: RunStage::ChangeRoot, ..run };
                        let request = run.change_root();
                        (run, Step::Perform(request))
                    },
                    Err(failure) => {
                        let report = failure.report_for(&Request::CurrentDir);
                        run.finish(Err(report))
                    },
                }
            },
            RunStage::ChangeRoot => {
                let mut run = Run { dir, command, target, cwd, stage: RunStage::ChangeRoot };
                match response.into_done() {
                    Ok(_) => {
                        let request = run.change_dir();
                        run.stage = RunStage::ChangeDir;
                        (run, Step::Perform(request))
                    },
                    Err(failure) => {
                        let request = run.change_root();
                        let report = failure.report_for(&request);
                        run.finish(Err(report))
                    },
                }
            },
            RunStage::ChangeDir => {
                let mut run = Run { dir, command, target, cwd, stage: RunStage::ChangeDir };
                match response.into_done() {
                    Ok(_) => {
                        let request = run.exec();
                        run.stage = RunStage::Exec;
                        (run, Step::Perform(request))
                    },
                    Err(failure) => {
                        let request = run.change_dir();
                        let report = failure.report_for(&request);
                        run.finish(Err(report))
                    },
                }
            },
            RunStage::Exec => {
                let run = Run { dir, command, target, cwd, stage: RunStage::Exec };
                match response.into_done() {
                    Ok(_) => run.finish(Ok(())),
                    Err(failure) => {
                        let request = run.exec();
                        let report = failure.report_for(&request);
                        run.finish(Err(report))
                    },
                }
            },
            RunStage::Finished => {
                let run = Run { dir, command, target, cwd, stage: RunStage::Finished };
                let report = crate::syscall::stray().report_for(&Request::CurrentDir);
                run.finish(Err(report))
            },
        }
    }
}

/// The sandbox directory of a run: that of `session` under the user's
/// cache directory.
pub open spec fn run_dir(cache_dir: Option<Vec<u8>>, session: Seq<u8>) -> Seq<u8> {
    session_dir(
        sessions_dir(
            match cache_dir {
                Some(dir) => Some(dir@),
                None => None,
            },
        ),
        session,
    )
}

/// The user as whom the command of a run in `environment` runs.
pub open spec fn run_target(environment: Environment, stay_root: bool) -> Option<u32> {
    command_uid(
        environment.uid,
        match environment.sudo_uid {
            Some(text) => Some(text@),
            None => None,
        },
        stay_root,
    )
}

/// Begins to run `command` inside the sandbox `session`.
///
/// The privileges are checked first. Then the sandbox is made active, unless
/// it is already; the process enters it; and the command takes over, as
/// the user who started the process unless it is to stay root.
pub fn run(session: &[u8], command: &[Vec<u8>], stay_root: bool, environment: Environment) -> (start:
    (Run, Step<()>))
    requires
        command@.len() > 0,
    ensures
        (start.0@, start.1@) == RunView::begin(
            environment.uid,
            run_dir(environment.cache_dir, session@),
            views(command@),
            run_target(environment, stay_root),
        ),
{
    let target = downgrade(
        environment.uid,
        match &environment.sudo_uid {
            Some(text) => Some(text.as_slice()),
            None => None,
        },
        stay_root,
    );
    let root = get_sessions_dir(environment.cache_dir);
    let run = Run {
        dir: get_session_dir(root.as_slice(), session),
        command: copy_all(command),
        target,
        cwd: Vec::new(),
        stage: RunStage::Finished,
    };
    run.gated(validate_permissions(environment.uid))
}

} // verus!
