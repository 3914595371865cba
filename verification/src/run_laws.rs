//! What holds of every run of a command, whatever the kernel answers.

use vstd::prelude::*;
use crate::error::{Error, ReportView};
use crate::lifecycle::{StepView};
use crate::lifecycle_laws::{found_active, probe, succeeded};
use crate::mounts::merged_dir;
use crate::privilege::{sufficient, ROOT};
use crate::run::{RunStageView, RunView};
use crate::syscall::{
    capabilities_reply, done_reply, path_reply, RequestView, ResponseView, NOT_PERMITTED,
};

verus! {

/// What a run did: the requests it made, in order, and its result where it
/// ended.
pub struct RunTrace {
    pub requests: Seq<RequestView>,
    pub result: Option<Result<(), ReportView>>,
}

/// The run that is in `state` and has just come to `step`, against
/// `responses`.
pub open spec fn run_from(state: RunView, step: StepView<()>, responses: Seq<ResponseView>) -> RunTrace
    decreases responses.len(),
{
    match step {
        StepView::Finish(result) => RunTrace { requests: Seq::empty(), result: Some(result) },
        StepView::Perform(request) => if responses.len() == 0 {
            RunTrace { requests: seq![request], result: None }
        } else {
            let (next, then) = state.advance(responses[0]);
            let rest = run_from(next, then, responses.drop_first());
            RunTrace { requests: seq![request] + rest.requests, result: rest.result }
        },
    }
}

/// The run of `command` in the sandbox `dir` by user `uid`, from its
/// beginning, against `responses`.
pub open spec fn run_of(
    uid: u32,
    dir: Seq<u8>,
    command: Seq<Seq<u8>>,
    target: Option<u32>,
    responses: Seq<ResponseView>,
) -> RunTrace {
    let (state, step) = RunView::begin(uid, dir, command, target);
    run_from(state, step, responses)
}

/// The four requests that take the process into the sandbox `dir` and hand
/// it over to `command`: the working directory is read before the root
/// changes, and set again after.
pub open spec fn entry(
    dir: Seq<u8>,
    cwd: Seq<u8>,
    command: Seq<Seq<u8>>,
    target: Option<u32>,
) -> Seq<RequestView> {
    seq![
        RequestView::CurrentDir,
        RequestView::ChangeRoot { path: merged_dir(dir) },
        RequestView::ChangeDir { path: cwd },
        RequestView::Exec { command, uid: target },
    ]
}

/// Root running a command in a sandbox that is already active: nothing is
/// created and nothing is mounted; after the probe the process enters the
/// sandbox and hands over to the command.
pub proof fn active_sandbox_is_entered_at_once(
    dir: Seq<u8>,
    command: Seq<Seq<u8>>,
    target: Option<u32>,
    cwd: Seq<u8>,
    responses: Seq<ResponseView>,
)
    requires
        found_active(responses),
        responses.len() == 5,
        responses[2] == ResponseView::Path(cwd),
        succeeded(responses[3]),
        succeeded(responses[4]),
    ensures
        run_of(ROOT, dir, command, target, responses) == (RunTrace {
            requests: probe(dir) + entry(dir, cwd, command, target),
            result: None,
        }),
{
    reveal(RunView::advance);
    reveal_with_fuel(run_from, 6);
    let trace = run_of(ROOT, dir, command, target, responses);
    assert(responses.drop_first().drop_first().drop_first().drop_first().drop_first().len() == 0);
    assert(trace.requests =~= probe(dir) + entry(dir, cwd, command, target));
}

/// A process that is not root and cannot become root, and whose
/// capabilities do not suffice, is refused with `SetupRequired` after the
/// three checks, before anything is created or mounted.
pub proof fn unprivileged_run_requires_setup(
    uid: u32,
    dir: Seq<u8>,
    command: Seq<Seq<u8>>,
    target: Option<u32>,
    responses: Seq<ResponseView>,
    bits: u64,
)
    requires
        uid != ROOT,
        responses.len() >= 3,
        responses[0] matches ResponseView::Failed(failure) && failure.code == NOT_PERMITTED,
        responses[1] == ResponseView::Capabilities(bits),
        !sufficient(bits),
    ensures
        run_of(uid, dir, command, target, responses).requests == seq![
            RequestView::BecomeRoot,
            RequestView::Capabilities,
            RequestView::ExecutablePath,
        ],
        run_of(uid, dir, command, target, responses).result matches Some(Err(report))
            && report.kind == Error::SetupRequired,
{
    reveal(RunView::advance);
    reveal_with_fuel(run_from, 4);
    let trace = run_of(uid, dir, command, target, responses);
    assert(trace.requests =~= seq![
        RequestView::BecomeRoot,
        RequestView::Capabilities,
        RequestView::ExecutablePath,
    ]);
}

/// Whether a run in `stage` has passed the privilege check.
pub open spec fn past_privileges(stage: RunStageView) -> bool {
    !(stage is Gate)
}

/// Once the privileges are granted, no error is `SetupRequired`.
pub proof fn granted_run_never_requires_setup(
    state: RunView,
    step: StepView<()>,
    responses: Seq<ResponseView>,
)
    requires
        past_privileges(state.stage),
        step matches StepView::Finish(Err(report)) ==> report.kind != Error::SetupRequired,
    ensures
        run_from(state, step, responses).result matches Some(Err(report)) ==> report.kind
            != Error::SetupRequired,
    decreases responses.len(),
{
    reveal(RunView::advance);
    if step is Perform && responses.len() > 0 {
        let (next, then) = state.advance(responses[0]);
        granted_run_never_requires_setup(next, then, responses.drop_first());
    }
}

/// Before a run enters the sandbox, a step leaves the sandbox directory,
/// the command and its user as they are, asks for nothing that would hand
/// the process over, and leads on to the reading of the working directory
/// at the earliest.
proof fn step_before_entry(state: RunView, response: ResponseView)
    requires
        state.stage is Gate || state.stage is Session || state.stage is Finished,
    ensures
        ({
            let (next, then) = state.advance(response);
            &&& next.dir == state.dir
            &&& next.command == state.command
            &&& next.target == state.target
            &&& next.stage is Gate || next.stage is Session || next.stage is Finished
                || next.stage is CurrentDir
            &&& then matches StepView::Perform(request) ==> !(request is Exec)
            &&& next.stage is CurrentDir ==> then == StepView::<()>::Perform(
                RequestView::CurrentDir,
            )
            &&& next.stage is Finished ==> then is Finish
        }),
{
    reveal(RunView::advance);
    match state.stage {
        RunStageView::Session(lifecycle) => {
            let (after, step) = lifecycle.advance(response);
            crate::lifecycle_laws::pending_is_inside(lifecycle.dir, after.phase);
        },
        _ => {},
    }
}

/// Wherever a run that has not entered the sandbox yet comes to hand the
/// process over, it has entered the sandbox right before.
proof fn command_runs_inside(
    state: RunView,
    step: StepView<()>,
    responses: Seq<ResponseView>,
    at: int,
)
    requires
        state.stage is Gate || state.stage is Session,
        step matches StepView::Perform(request) && !(request is Exec),
        0 <= at < run_from(state, step, responses).requests.len(),
        run_from(state, step, responses).requests[at] is Exec,
    ensures
        at >= 4,
        responses.len() >= at,
        run_from(state, step, responses).requests.subrange(at - 3, at + 1) == entry(
            state.dir,
            path_reply(responses[at - 3])->Ok_0,
            state.command,
            state.target,
        ),
        path_reply(responses[at - 3]) is Ok,
        succeeded(responses[at - 2]),
        succeeded(responses[at - 1]),
    decreases responses.len(),
{
    reveal_with_fuel(run_from, 2);
    let trace = run_from(state, step, responses);
    assert(responses.len() > 0 && at > 0);
    let (next, then) = state.advance(responses[0]);
    let rest = responses.drop_first();
    let tail = run_from(next, then, rest);
    assert(trace.requests =~= seq![step->Perform_0] + tail.requests);
    assert(tail.requests[at - 1] == trace.requests[at]);
    step_before_entry(state, responses[0]);
    if next.stage is CurrentDir {
        entering_takes_four_steps(next, then, rest, at - 1);
        assert(trace.requests.subrange(at - 3, at + 1) =~= tail.requests.take(4));
        assert(rest[0] == responses[1]);
        assert(rest[1] == responses[2]);
        assert(rest[2] == responses[3]);
    } else {
        command_runs_inside(next, then, rest, at - 1);
        assert(rest[at - 1 - 3] == responses[at - 3]);
        assert(rest[at - 1 - 2] == responses[at - 2]);
        assert(rest[at - 1 - 1] == responses[at - 1]);
        assert(trace.requests.subrange(at - 3, at + 1) =~= tail.requests.subrange(at - 4, at));
    }
}

/// From the reading of the working directory on, a run asks for at most
/// four things, and for the command as the fourth.
proof fn entering_takes_four_steps(
    state: RunView,
    step: StepView<()>,
    responses: Seq<ResponseView>,
    at: int,
)
    requires
        state.stage is CurrentDir,
        step == StepView::<()>::Perform(RequestView::CurrentDir),
        0 <= at < run_from(state, step, responses).requests.len(),
        run_from(state, step, responses).requests[at] is Exec,
    ensures
        at == 3,
        responses.len() >= 3,
        path_reply(responses[0]) is Ok,
        succeeded(responses[1]),
        succeeded(responses[2]),
        run_from(state, step, responses).requests.take(4) == entry(
            state.dir,
            path_reply(responses[0])->Ok_0,
            state.command,
            state.target,
        ),
{
    reveal(RunView::advance);
    reveal_with_fuel(run_from, 6);
    let trace = run_from(state, step, responses);
    assert(trace.requests.take(4) =~= entry(
        state.dir,
        path_reply(responses[0])->Ok_0,
        state.command,
        state.target,
    ));
}

/// The command is handed the process only from inside the sandbox: in every
/// run, the request to execute comes right after three others that all
/// went well, in this order: the working directory was read, the root was
/// changed to the sandbox's union view, and the working directory was set
/// to what had been read.
pub proof fn command_is_run_inside_the_sandbox(
    uid: u32,
    dir: Seq<u8>,
    command: Seq<Seq<u8>>,
    target: Option<u32>,
    responses: Seq<ResponseView>,
    at: int,
)
    requires
        0 <= at < run_of(uid, dir, command, target, responses).requests.len(),
        run_of(uid, dir, command, target, responses).requests[at] is Exec,
    ensures
        at >= 4,
        responses.len() >= at,
        run_of(uid, dir, command, target, responses).requests.subrange(at - 3, at + 1) == entry(
            dir,
            path_reply(responses[at - 3])->Ok_0,
            command,
            target,
        ),
        path_reply(responses[at - 3]) is Ok,
        succeeded(responses[at - 2]),
        succeeded(responses[at - 1]),
{
    let (state, step) = RunView::begin(uid, dir, command, target);
    command_runs_inside(state, step, responses, at);
}

/// Root is never asked to set anything up.
pub proof fn root_never_requires_setup(
    dir: Seq<u8>,
    command: Seq<Seq<u8>>,
    target: Option<u32>,
    responses: Seq<ResponseView>,
)
    ensures
        run_of(ROOT, dir, command, target, responses).result matches Some(Err(report))
            ==> report.kind != Error::SetupRequired,
{
    let (state, step) = RunView::begin(ROOT, dir, command, target);
    granted_run_never_requires_setup(state, step, responses);
}

/// Whether `request` is one of the checks of privileges.
pub open spec fn is_check(request: RequestView) -> bool {
    request is BecomeRoot || request is Capabilities || request is ExecutablePath
}

/// Whether the answers to the checks grant the privileges to a process
/// that root does not run: it could become root, or it could not for want
/// of permission but holds every required capability.
pub open spec fn granted(responses: Seq<ResponseView>) -> bool {
    ||| responses.len() >= 1 && succeeded(responses[0])
    ||| {
        &&& responses.len() >= 2
        &&& done_reply(responses[0]) matches Err(failure) && failure.code == NOT_PERMITTED
        &&& capabilities_reply(responses[1]) matches Ok(bits) && sufficient(bits)
    }
}

/// Nothing is probed, created, mounted or entered before the privileges
/// are granted: a run that root does not start makes no request but the
/// checks until their answers grant them.
pub proof fn privileges_come_first(
    uid: u32,
    dir: Seq<u8>,
    command: Seq<Seq<u8>>,
    target: Option<u32>,
    responses: Seq<ResponseView>,
    at: int,
)
    requires
        uid != ROOT,
        0 <= at < run_of(uid, dir, command, target, responses).requests.len(),
        !is_check(run_of(uid, dir, command, target, responses).requests[at]),
    ensures
        granted(responses),
{
    reveal(RunView::advance);
    reveal_with_fuel(run_from, 4);
}

} // verus!
