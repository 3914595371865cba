//! The life of one sandbox: probing whether it is active, creating and
//! mounting it, unmounting it, deleting it.
//!
//! A [`Lifecycle`] pursues one [`Goal`] for one sandbox directory. It asks
//! for one system call at a time and decides what comes next when it is told
//! how the call went. What it decides is the function [`turn`]; what it asks
//! for in each phase is the function [`pending`].

use vstd::prelude::*;
use crate::error::{Error, Report, ReportView};
use crate::mounts::{
    assembly_request, assembly_step, creation_request, creation_step, invalid_path,
    invalid_path_report, is_mountable, merged_dir, mountable, teardown_request, teardown_step,
    ASSEMBLY_STEPS, BINDS, LAYERS, TEARDOWN_STEPS,
};
use crate::path_undo::TmpPath;
use crate::syscall::{
    done_reply, failure_report, failure_view, mount_id_reply, IoFailure, IoFailureView, Request,
    RequestView, Response, ResponseView, INVALID, NOT_FOUND,
};

verus! {

/// What is to become of a sandbox.
#[derive(Clone, Copy, Debug, PartialEq, Eq, Structural)]
pub enum Goal {
    /// Find out whether it is active; it must exist.
    Query,
    /// Make it active: create and mount it unless it is mounted already.
    Activate,
    /// Make it inactive: unmount it if it is mounted; it must exist.
    Stop,
    /// Unmount it if it is mounted, then remove its directory; it must exist.
    Delete,
}

/// Where a lifecycle stands: which answer it is waiting for.
#[derive(Clone, Copy, Debug, PartialEq, Eq, Structural)]
pub enum Phase {
    /// The mount id of `<dir>/merged`.
    ProbeMerged,
    /// The mount id of `<dir>`; that of `<dir>/merged` is `merged`.
    ProbeParent { merged: u64 },
    /// The creation of layer `index`.
    Create { index: usize },
    /// Step `index` of the assembly.
    Assemble { index: usize },
    /// Step `index` of the teardown.
    Teardown { index: usize },
    /// The removal of `<dir>`, which was found active or not.
    Remove { active: bool },
    /// Nothing: the lifecycle has come to its end.
    Finished,
}

/// What a lifecycle does next.
pub enum Turn {
    /// It enters a phase and asks for what is pending there.
    Continue(Phase),
    /// It ends: with whether the probe found the sandbox active, or with an
    /// error.
    Finish(Result<bool, ReportView>),
}

/// The request that is pending for the sandbox `dir` in `phase`.
pub open spec fn pending(dir: Seq<u8>, phase: Phase) -> RequestView {
    match phase {
        Phase::ProbeMerged => RequestView::MountId { path: merged_dir(dir) },
        Phase::ProbeParent { merged } => RequestView::MountId { path: dir },
        Phase::Create { index } => creation_request(dir, index as int),
        Phase::Assemble { index } => assembly_request(dir, index as int),
        Phase::Teardown { index } => teardown_request(dir, index as int),
        Phase::Remove { active } => RequestView::RemoveDirAll { path: dir },
        Phase::Finished => RequestView::MountId { path: dir },
    }
}

/// Whether a sandbox is active, given the id of the mount that holds its
/// `merged` directory and the id of the mount that holds the sandbox
/// directory itself: it is active when `merged` is a mount of its own.
pub open spec fn active(merged: u64, parent: u64) -> bool {
    parent != merged
}

/// What follows once the probe has found the sandbox active or not.
pub open spec fn after_probe(goal: Goal, is_active: bool) -> Turn {
    match goal {
        Goal::Query => Turn::Finish(Ok(is_active)),
        Goal::Activate => if is_active {
            Turn::Finish(Ok(true))
        } else {
            Turn::Continue(Phase::Create { index: 0 })
        },
        Goal::Stop => if is_active {
            Turn::Continue(Phase::Teardown { index: 0 })
        } else {
            Turn::Finish(Ok(false))
        },
        Goal::Delete => if is_active {
            Turn::Continue(Phase::Teardown { index: 0 })
        } else {
            Turn::Continue(Phase::Remove { active: false })
        },
    }
}

/// What follows when `merged` could not be examined. A missing `merged`
/// means an inactive sandbox to who is about to create it, and that the
/// sandbox does not exist to everyone else; any other failure is an I/O
/// error.
pub open spec fn after_missing_probe(goal: Goal, dir: Seq<u8>, failure: IoFailureView) -> Turn {
    if failure.code != NOT_FOUND {
        Turn::Finish(Err(failure_report(pending(dir, Phase::ProbeMerged), failure)))
    } else if goal == Goal::Activate {
        after_probe(goal, false)
    } else {
        Turn::Finish(
            Err(
                failure_report(pending(dir, Phase::ProbeMerged), failure).change(
                    Error::SessionNotFound,
                ),
            ),
        )
    }
}

/// What follows the last step of the teardown.
pub open spec fn after_teardown(goal: Goal) -> Turn {
    if goal == Goal::Delete {
        Turn::Continue(Phase::Remove { active: true })
    } else {
        Turn::Finish(Ok(true))
    }
}

/// Whether the failure of teardown step `index` is passed over: a bound
/// directory that turns out not to be mounted needs no unmount.
pub open spec fn skipped(index: usize, failure: IoFailureView) -> bool {
    index < BINDS && failure.code == INVALID
}

/// What a lifecycle with `goal` for the sandbox `dir` does when, in `phase`,
/// it is told `response`.
pub open spec fn turn(goal: Goal, dir: Seq<u8>, phase: Phase, response: ResponseView) -> Turn {
    match phase {
        Phase::ProbeMerged => match mount_id_reply(response) {
            Ok(merged) => Turn::Continue(Phase::ProbeParent { merged }),
            Err(failure) => after_missing_probe(goal, dir, failure),
        },
        Phase::ProbeParent { merged } => match mount_id_reply(response) {
            Ok(parent) => after_probe(goal, active(merged, parent)),
            Err(failure) => Turn::Finish(Err(failure_report(pending(dir, phase), failure))),
        },
        Phase::Create { index } => match done_reply(response) {
            Ok(_) => if index + 1 < LAYERS {
                Turn::Continue(Phase::Create { index: (index + 1) as usize })
            } else if mountable(dir) {
                Turn::Continue(Phase::Assemble { index: 0 })
            } else {
                Turn::Finish(Err(invalid_path_report()))
            },
            Err(failure) => Turn::Finish(Err(failure_report(pending(dir, phase), failure))),
        },
        Phase::Assemble { index } => match done_reply(response) {
            Ok(_) => if index + 1 < ASSEMBLY_STEPS {
                Turn::Continue(Phase::Assemble { index: (index + 1) as usize })
            } else {
                Turn::Finish(Ok(false))
            },
            Err(failure) => Turn::Finish(Err(failure_report(pending(dir, phase), failure))),
        },
        Phase::Teardown { index } => {
            let onward = if index + 1 < TEARDOWN_STEPS {
                Turn::Continue(Phase::Teardown { index: (index + 1) as usize })
            } else {
                after_teardown(goal)
            };
            match done_reply(response) {
                Ok(_) => onward,
                Err(failure) => if skipped(index, failure) {
                    onward
                } else {
                    Turn::Finish(Err(failure_report(pending(dir, phase), failure)))
                },
            }
        },
        Phase::Remove { active } => match done_reply(response) {
            Ok(_) => Turn::Finish(Ok(active)),
            Err(failure) => Turn::Finish(Err(failure_report(pending(dir, phase), failure))),
        },
        Phase::Finished => Turn::Finish(Err(failure_report(pending(dir, phase), crate::syscall::unexpected()))),
    }
}

/// What a machine hands back: a system call to make, or its final result.
#[derive(Debug, PartialEq, Eq)]
pub enum Step<T> {
    /// Make this call and report how it went.
    Perform(Request),
    /// The work has ended with this result.
    Finish(Result<T, Report>),
}

/// The mathematical content of a [`Step`].
pub enum StepView<T> {
    Perform(RequestView),
    Finish(Result<T, ReportView>),
}

impl<T> View for Step<T> {
    type V = StepView<T>;

    open spec fn view(&self) -> StepView<T> {
        match self {
            Step::Perform(request) => StepView::Perform(request@),
            Step::Finish(Ok(value)) => StepView::Finish(Ok(*value)),
            Step::Finish(Err(report)) => StepView::Finish(Err(report@)),
        }
    }
}

/// The mathematical content of a [`Lifecycle`].
pub struct LifecycleView {
    pub goal: Goal,
    pub dir: Seq<u8>,
    pub phase: Phase,
}

impl LifecycleView {
    /// The step that `turn` stands for, and the state after it.
    pub open spec fn follow(self, turn: Turn) -> (LifecycleView, StepView<bool>) {
        match turn {
            Turn::Continue(phase) => (
                LifecycleView { phase, ..self },
                StepView::Perform(pending(self.dir, phase)),
            ),
            Turn::Finish(result) => (
                LifecycleView { phase: Phase::Finished, ..self },
                StepView::Finish(result),
            ),
        }
    }

    /// The state and the step after `response`.
    pub open spec fn advance(self, response: ResponseView) -> (LifecycleView, StepView<bool>) {
        self.follow(turn(self.goal, self.dir, self.phase, response))
    }
}

/// One goal pursued for one sandbox.
#[derive(Debug)]
pub struct Lifecycle {
    goal: Goal,
    dir: Vec<u8>,
    phase: Phase,
}

impl View for Lifecycle {
    type V = LifecycleView;

    closed spec fn view(&self) -> LifecycleView {
        LifecycleView { goal: self.goal, dir: self.dir@, phase: self.phase }
    }
}

impl Lifecycle {
    /// Begins to pursue `goal` for the sandbox `dir`: the first thing to
    /// find out is which mount holds `<dir>/merged`.
    pub fn begin(goal: Goal, dir: Vec<u8>) -> (start: (Lifecycle, Request))
        ensures
            start.0@ == (LifecycleView { goal, dir: dir@, phase: Phase::ProbeMerged }),
            start.1@ == pending(dir@, Phase::ProbeMerged),
    {
        let mut lifecycle = Lifecycle { goal, dir, phase: Phase::ProbeMerged };
        let request = lifecycle.request();
        (lifecycle, request)
    }

    /// The goal.
    pub fn goal(&self) -> (goal: Goal)
        ensures
            goal == self@.goal,
    {
        self.goal
    }

    /// The sandbox directory.
    pub fn dir(&self) -> (dir: &[u8])
        ensures
            dir@ == self@.dir,
    {
        self.dir.as_slice()
    }

    /// Whether the lifecycle has come to its end.
    pub fn is_finished(&self) -> (finished: bool)
        ensures
            finished == (self@.phase == Phase::Finished),
    {
        self.phase == Phase::Finished
    }

    /// The request that is pending in the current phase.
    fn request(&mut self) -> (request: Request)
        ensures
            request@ == pending(old(self)@.dir, old(self)@.phase),
            final(self)@ == old(self)@,
    {
        match self.phase {
            Phase::ProbeMerged => {
                let merged = TmpPath::new(&mut self.dir, "merged".as_bytes());
                let path = merged.to_vec();
                merged.release();
                Request::MountId { path }
            },
            Phase::ProbeParent { merged } => Request::MountId {
                path: vstd::slice::slice_to_vec(self.dir.as_slice()),
            },
            Phase::Create { index } => creation_step(&mut self.dir, index),
            Phase::Assemble { index } => assembly_step(&mut self.dir, index),
            Phase::Teardown { index } => teardown_step(&mut self.dir, index),
            Phase::Remove { active } => Request::RemoveDirAll {
                path: vstd::slice::slice_to_vec(self.dir.as_slice()),
            },
            Phase::Finished => Request::MountId {
                path: vstd::slice::slice_to_vec(self.dir.as_slice()),
            },
        }
    }

    /// The report of the pending request having failed with `failure`.
    fn failed(&mut self, failure: IoFailure) -> (report: Report)
        ensures
            report@ == failure_report(pending(old(self)@.dir, old(self)@.phase), failure@),
            final(self)@ == old(self)@,
    {
        let request = self.request();
        failure.report_for(&request)
    }

    /// What follows once the probe has found the sandbox active or not.
    fn probed(goal: Goal, is_active: bool) -> (decision: Decision)
        ensures
            decision@ == after_probe(goal, is_active),
    {
        match goal {
            Goal::Query => Decision::Finish(Ok(is_active)),
            Goal::Activate => if is_active {
                Decision::Finish(Ok(true))
            } else {
                Decision::Continue(Phase::Create { index: 0 })
            },
            Goal::Stop => if is_active {
                Decision::Continue(Phase::Teardown { index: 0 })
            } else {
                Decision::Finish(Ok(false))
            },
            Goal::Delete => if is_active {
                Decision::Continue(Phase::Teardown { index: 0 })
            } else {
                Decision::Continue(Phase::Remove { active: false })
            },
        }
    }

    /// What to do in the current phase on `response`.
    fn decide(&mut self, response: Response) -> (decision: Decision)
        ensures
            decision@ == turn(old(self)@.goal, old(self)@.dir, old(self)@.phase, response@),
            final(self)@ == old(self)@,
    {
        let goal = self.goal;
        match self.phase {
            Phase::ProbeMerged => match response.into_mount_id() {
                Ok(merged) => Decision::Continue(Phase::ProbeParent { merged }),
                Err(failure) => {
                    if failure.code != NOT_FOUND {
                        Decision::Finish(Err(self.failed(failure)))
                    } else if goal == Goal::Activate {
                        Self::probed(goal, false)
                    } else {
                        let report = self.failed(failure);
                        Decision::Finish(Err(report.change_kind(Error::SessionNotFound)))
                    }
                },
            },
            Phase::ProbeParent { merged } => match response.into_mount_id() {
                Ok(parent) => Self::probed(goal, parent != merged),
                Err(failure) => Decision::Finish(Err(self.failed(failure))),
            },
            Phase::Create { index } => match response.into_done() {
                Ok(_) => if index < LAYERS - 1 {
                    Decision::Continue(Phase::Create { index: index + 1 })
                } else if is_mountable(self.dir.as_slice()) {
                    Decision::Continue(Phase::Assemble { index: 0 })
                } else {
                    Decision::Finish(Err(invalid_path()))
                },
                Err(failure) => Decision::Finish(Err(self.failed(failure))),
            },
            Phase::Assemble { index } => match response.into_done() {
                Ok(_) => if index < ASSEMBLY_STEPS - 1 {
                    Decision::Continue(Phase::Assemble { index: index + 1 })
                } else {
                    Decision::Finish(Ok(false))
                },
                Err(failure) => Decision::Finish(Err(self.failed(failure))),
            },
            Phase::Teardown { index } => {
                let failure = match response.into_done() {
                    Ok(_) => None,
                    Err(failure) => if index < BINDS && failure.code == INVALID {
                        None
                    } else {
                        Some(failure)
                    },
                };
                match failure {
                    Some(failure) => Decision::Finish(Err(self.failed(failure))),
                    None => if index < TEARDOWN_STEPS - 1 {
                        Decision::Continue(Phase::Teardown { index: index + 1 })
                    } else if goal == Goal::Delete {
                        Decision::Continue(Phase::Remove { active: true })
                    } else {
                        Decision::Finish(Ok(true))
                    },
                }
            },
            Phase::Remove { active } => match response.into_done() {
                Ok(_) => Decision::Finish(Ok(active)),
                Err(failure) => Decision::Finish(Err(self.failed(failure))),
            },
            Phase::Finished => {
                let stray = match response.into_done() {
                    Ok(_) => crate::syscall::stray(),
                    Err(_) => crate::syscall::stray(),
                };
                Decision::Finish(Err(self.failed(stray)))
            },
        }
    }

    /// Takes in how the pending request went, and says what comes next: the
    /// next request, or the result.
    pub fn advance(self, response: Response) -> (next: (Lifecycle, Step<bool>))
        ensures
            (next.0@, next.1@) == self@.advance(response@),
    {
        let mut lifecycle = self;
        match lifecycle.decide(response) {
            Decision::Continue(phase) => {
                lifecycle.phase = phase;
                let request = lifecycle.request();
                (lifecycle, Step::Perform(request))
            },
            Decision::Finish(result) => {
                lifecycle.phase = Phase::Finished;
                (lifecycle, Step::Finish(result))
            },
        }
    }
}

/// What a lifecycle does next, with the report that it ends with.
enum Decision {
    Continue(Phase),
    Finish(Result<bool, Report>),
}

impl View for Decision {
    type V = Turn;

    closed spec fn view(&self) -> Turn {
        match self {
            Decision::Continue(phase) => Turn::Continue(*phase),
            Decision::Finish(Ok(active)) => Turn::Finish(Ok(*active)),
            Decision::Finish(Err(report)) => Turn::Finish(Err(report@)),
        }
    }
}

} // verus!
