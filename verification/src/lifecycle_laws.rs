//! What holds of every lifecycle, whatever the kernel answers.
//!
//! A lifecycle is run against a sequence of responses: the first answers the
//! first request, the second the request that followed, and so on. The
//! [`Trace`] of such a run lists the requests that were made and, where the
//! lifecycle came to its end, the result.

use vstd::prelude::*;
use crate::error::{Error, ReportView};
use crate::lifecycle::{
    active, pending, skipped, turn, Goal, LifecycleView, Phase, StepView, Turn,
};
use crate::mounts::{
    assembly, bind_target, creation, merged_dir, mountable, teardown, ASSEMBLY_STEPS, BINDS,
    LAYERS, TEARDOWN_STEPS,
};
use crate::path_undo::joined;
use crate::syscall::{done_reply, mount_id_reply, RequestView, ResponseView, NOT_FOUND};

verus! {

/// What a run did: the requests it made, in order, and its result where it
/// ended.
pub struct Trace {
    pub requests: Seq<RequestView>,
    pub result: Option<Result<bool, ReportView>>,
}

/// The run of a lifecycle that stands in `phase`, against `responses`.
pub open spec fn run_from(
    goal: Goal,
    dir: Seq<u8>,
    phase: Phase,
    responses: Seq<ResponseView>,
) -> Trace
    decreases responses.len(),
{
    if responses.len() == 0 {
        Trace { requests: seq![pending(dir, phase)], result: None }
    } else {
        match turn(goal, dir, phase, responses[0]) {
            Turn::Continue(next) => {
                let rest = run_from(goal, dir, next, responses.drop_first());
                Trace {
                    requests: seq![pending(dir, phase)] + rest.requests,
                    result: rest.result,
                }
            },
            Turn::Finish(result) => Trace {
                requests: seq![pending(dir, phase)],
                result: Some(result),
            },
        }
    }
}

/// The run of a lifecycle from its beginning, against `responses`.
pub open spec fn run(goal: Goal, dir: Seq<u8>, responses: Seq<ResponseView>) -> Trace {
    run_from(goal, dir, Phase::ProbeMerged, responses)
}

/// A run is what the lifecycle's steps add up to: after the first request,
/// the run goes on with the step that the lifecycle takes on the first
/// response, be it the next request or the result.
pub proof fn run_follows_the_steps(
    goal: Goal,
    dir: Seq<u8>,
    phase: Phase,
    responses: Seq<ResponseView>,
)
    requires
        responses.len() >= 1,
    ensures
        ({
            let state = LifecycleView { goal, dir, phase };
            let (next, step) = state.advance(responses[0]);
            let trace = run_from(goal, dir, phase, responses);
            &&& trace.requests[0] == pending(dir, phase)
            &&& match step {
                StepView::Perform(request) => trace == (Trace {
                    requests: seq![pending(dir, phase)] + run_from(
                        goal,
                        dir,
                        next.phase,
                        responses.drop_first(),
                    ).requests,
                    result: run_from(goal, dir, next.phase, responses.drop_first()).result,
                }) && run_from(goal, dir, next.phase, responses.drop_first()).requests[0]
                    == request,
                StepView::Finish(result) => trace == (Trace {
                    requests: seq![pending(dir, phase)],
                    result: Some(result),
                }),
            }
        }),
{
}

/// The two requests of a probe that reaches its verdict.
pub open spec fn probe(dir: Seq<u8>) -> Seq<RequestView> {
    seq![RequestView::MountId { path: merged_dir(dir) }, RequestView::MountId { path: dir }]
}

/// Whether `response` says that the call succeeded.
pub open spec fn succeeded(response: ResponseView) -> bool {
    done_reply(response) is Ok
}

/// Whether `response` says that something was not found.
pub open spec fn not_found(response: ResponseView) -> bool {
    response matches ResponseView::Failed(failure) && failure.code == NOT_FOUND
}

/// Whether the probe, answered by the first two of `responses`, finds the
/// sandbox active.
pub open spec fn found_active(responses: Seq<ResponseView>) -> bool {
    &&& responses.len() >= 2
    &&& mount_id_reply(responses[0]) is Ok
    &&& mount_id_reply(responses[1]) is Ok
    &&& active(mount_id_reply(responses[0])->Ok_0, mount_id_reply(responses[1])->Ok_0)
}

/// Whether the probe, answered by the first two of `responses`, finds the
/// sandbox inactive.
pub open spec fn found_inactive(responses: Seq<ResponseView>) -> bool {
    &&& responses.len() >= 2
    &&& mount_id_reply(responses[0]) is Ok
    &&& mount_id_reply(responses[1]) is Ok
    &&& !active(mount_id_reply(responses[0])->Ok_0, mount_id_reply(responses[1])->Ok_0)
}

/// The path that `request` acts on, for the requests that act on one.
pub open spec fn touched(request: RequestView) -> Option<Seq<u8>> {
    match request {
        RequestView::MountId { path } => Some(path),
        RequestView::CreateDirAll { path } => Some(path),
        RequestView::MountOverlay { target, options } => Some(target),
        RequestView::BindRecursive { source, target } => Some(target),
        RequestView::MakeDownstream { target } => Some(target),
        RequestView::Unmount { target, detach } => Some(target),
        RequestView::RemoveDirAll { path } => Some(path),
        RequestView::ReadDir { path } => Some(path),
        RequestView::ChangeRoot { path } => Some(path),
        RequestView::ChangeDir { path } => Some(path),
        _ => None,
    }
}

/// Whether `request` acts on the sandbox directory `dir` or on a path
/// inside it.
pub open spec fn inside(dir: Seq<u8>, request: RequestView) -> bool {
    touched(request) matches Some(path) && dir.is_prefix_of(path)
}

/// Whatever a lifecycle has pending acts inside its sandbox directory.
pub proof fn pending_is_inside(dir: Seq<u8>, phase: Phase)
    ensures
        inside(dir, pending(dir, phase)),
{
    let merged = merged_dir(dir);
    assert(dir.is_prefix_of(merged));
    assert forall|index: int| dir.is_prefix_of(#[trigger] bind_target(dir, index)) by {
        assert(merged.is_prefix_of(bind_target(dir, index)));
    }
}

/// No lifecycle ever acts outside its sandbox directory: every request of
/// every run names the directory or a path below it.
pub proof fn requests_stay_inside(
    goal: Goal,
    dir: Seq<u8>,
    phase: Phase,
    responses: Seq<ResponseView>,
    at: int,
)
    requires
        0 <= at < run_from(goal, dir, phase, responses).requests.len(),
    ensures
        inside(dir, run_from(goal, dir, phase, responses).requests[at]),
    decreases responses.len(),
{
    pending_is_inside(dir, phase);
    if responses.len() > 0 {
        match turn(goal, dir, phase, responses[0]) {
            Turn::Continue(next) => {
                if at > 0 {
                    requests_stay_inside(goal, dir, next, responses.drop_first(), at - 1);
                }
            },
            Turn::Finish(result) => {},
        }
    }
}

/// A probe that finds the sandbox inactive is all that a stop does: the
/// second of two stops in a row is a no-op.
pub proof fn stop_of_inactive_is_no_op(dir: Seq<u8>, responses: Seq<ResponseView>)
    requires
        found_inactive(responses),
    ensures
        run(Goal::Stop, dir, responses) == (Trace {
            requests: probe(dir),
            result: Some(Ok(false)),
        }),
{
    reveal_with_fuel(run_from, 3);
    assert(run(Goal::Stop, dir, responses).requests =~= probe(dir));
}

/// A probe that finds the sandbox active is all that an activation does:
/// nothing is created and nothing is mounted a second time.
pub proof fn activate_of_active_is_no_op(dir: Seq<u8>, responses: Seq<ResponseView>)
    requires
        found_active(responses),
    ensures
        run(Goal::Activate, dir, responses) == (Trace {
            requests: probe(dir),
            result: Some(Ok(true)),
        }),
{
    reveal_with_fuel(run_from, 3);
    assert(run(Goal::Activate, dir, responses).requests =~= probe(dir));
}

/// The probe alone answers a query: the sandbox is active exactly when the
/// mount that holds `merged` is another than the one that holds the sandbox
/// directory.
pub proof fn query_compares_mount_ids(
    dir: Seq<u8>,
    responses: Seq<ResponseView>,
    merged: u64,
    parent: u64,
)
    requires
        responses.len() >= 2,
        responses[0] == ResponseView::MountId(merged),
        responses[1] == ResponseView::MountId(parent),
    ensures
        run(Goal::Query, dir, responses) == (Trace {
            requests: probe(dir),
            result: Some(Ok(parent != merged)),
        }),
{
    reveal_with_fuel(run_from, 3);
    assert(run(Goal::Query, dir, responses).requests =~= probe(dir));
}

/// A sandbox without a `merged` directory does not exist to a query, a
/// stop or a delete: the first request is the only one, and the error is
/// `SessionNotFound`. So ends the second of two deletes in a row.
pub proof fn missing_sandbox_is_not_found(goal: Goal, dir: Seq<u8>, responses: Seq<ResponseView>)
    requires
        goal != Goal::Activate,
        responses.len() >= 1,
        not_found(responses[0]),
    ensures
        run(goal, dir, responses).requests == seq![RequestView::MountId { path: merged_dir(dir) }],
        run(goal, dir, responses).result matches Some(Err(report)) && report.kind
            == Error::SessionNotFound,
{
    reveal_with_fuel(run_from, 2);
}

/// Whether the first `count` of `responses` all say that the call succeeded.
pub open spec fn all_succeeded(responses: Seq<ResponseView>, count: int) -> bool {
    &&& responses.len() >= count
    &&& forall|k: int| 0 <= k < count ==> succeeded(#[trigger] responses[k])
}

/// Whether `response` lets teardown step `index` pass: the unmount
/// succeeded, or it was that of a bound directory that was not mounted.
pub open spec fn passed(index: int, response: ResponseView) -> bool {
    match done_reply(response) {
        Ok(_) => true,
        Err(failure) => 0 <= index < BINDS && skipped(index as usize, failure),
    }
}

/// Whether `responses` let the teardown steps from `index` on pass, one
/// response for each step.
pub open spec fn all_passed(responses: Seq<ResponseView>, index: int) -> bool {
    &&& responses.len() >= TEARDOWN_STEPS - index
    &&& forall|k: int| 0 <= k < TEARDOWN_STEPS - index ==> passed(index + k, #[trigger] responses[k])
}

/// The request that removes the sandbox directory, where the goal is to
/// delete it.
pub open spec fn removal(goal: Goal, dir: Seq<u8>) -> Seq<RequestView> {
    if goal == Goal::Delete {
        seq![RequestView::RemoveDirAll { path: dir }]
    } else {
        Seq::empty()
    }
}

/// An assembly that is under way ends well exactly when every remaining
/// step succeeds, and has then asked for each of them in order.
pub proof fn assembly_runs_to_its_end(
    goal: Goal,
    dir: Seq<u8>,
    index: usize,
    responses: Seq<ResponseView>,
)
    requires
        index < ASSEMBLY_STEPS,
    ensures
        run_from(goal, dir, Phase::Assemble { index }, responses).result is Some
            && run_from(goal, dir, Phase::Assemble { index }, responses).result->Some_0 is Ok
            <==> all_succeeded(responses, ASSEMBLY_STEPS - index),
        all_succeeded(responses, ASSEMBLY_STEPS - index) ==> run_from(
            goal,
            dir,
            Phase::Assemble { index },
            responses,
        ) == (Trace { requests: assembly(dir).skip(index as int), result: Some(Ok(false)) }),
    decreases ASSEMBLY_STEPS - index,
{
    let phase = Phase::Assemble { index };
    let trace = run_from(goal, dir, phase, responses);
    let plan = assembly(dir);
    if responses.len() > 0 {
        let rest = responses.drop_first();
        if succeeded(responses[0]) {
            if index + 1 < ASSEMBLY_STEPS {
                let next = (index + 1) as usize;
                assembly_runs_to_its_end(goal, dir, next, rest);
                let tail = run_from(goal, dir, Phase::Assemble { index: next }, rest);
                assert(trace.result == tail.result);
                if all_succeeded(rest, ASSEMBLY_STEPS - next) {
                    assert forall|k: int| 0 <= k < ASSEMBLY_STEPS - index implies succeeded(
                        #[trigger] responses[k],
                    ) by {
                        if k > 0 {
                            assert(responses[k] == rest[k - 1]);
                        }
                    }
                    assert(trace.requests =~= plan.skip(index as int));
                }
                if all_succeeded(responses, ASSEMBLY_STEPS - index) {
                    assert forall|k: int| 0 <= k < ASSEMBLY_STEPS - next implies succeeded(
                        #[trigger] rest[k],
                    ) by {
                        assert(rest[k] == responses[k + 1]);
                    }
                }
            } else {
                assert(trace.requests =~= plan.skip(index as int));
            }
        }
    }
}

/// A creation that is under way ends well exactly when the paths can be
/// mounted and every remaining step of creation and assembly succeeds, and
/// has then asked for each of them in order.
pub proof fn creation_runs_to_its_end(
    goal: Goal,
    dir: Seq<u8>,
    index: usize,
    responses: Seq<ResponseView>,
)
    requires
        index < LAYERS,
    ensures
        run_from(goal, dir, Phase::Create { index }, responses).result is Some && run_from(
            goal,
            dir,
            Phase::Create { index },
            responses,
        ).result->Some_0 is Ok <==> mountable(dir) && all_succeeded(
            responses,
            LAYERS - index + ASSEMBLY_STEPS,
        ),
        mountable(dir) && all_succeeded(responses, LAYERS - index + ASSEMBLY_STEPS) ==> run_from(
            goal,
            dir,
            Phase::Create { index },
            responses,
        ) == (Trace {
            requests: creation(dir).skip(index as int) + assembly(dir),
            result: Some(Ok(false)),
        }),
    decreases LAYERS - index,
{
    let phase = Phase::Create { index };
    let trace = run_from(goal, dir, phase, responses);
    let count = LAYERS - index + ASSEMBLY_STEPS;
    if responses.len() > 0 {
        let rest = responses.drop_first();
        if succeeded(responses[0]) {
            if all_succeeded(responses, count) {
                assert forall|k: int| 0 <= k < count - 1 implies succeeded(#[trigger] rest[k]) by {
                    assert(rest[k] == responses[k + 1]);
                }
            }
            if all_succeeded(rest, count - 1) {
                assert forall|k: int| 0 <= k < count implies succeeded(#[trigger] responses[k]) by {
                    if k > 0 {
                        assert(responses[k] == rest[k - 1]);
                    }
                }
            }
            if index + 1 < LAYERS {
                let next = (index + 1) as usize;
                creation_runs_to_its_end(goal, dir, next, rest);
                let tail = run_from(goal, dir, Phase::Create { index: next }, rest);
                assert(trace.result == tail.result);
                if mountable(dir) && all_succeeded(rest, count - 1) {
                    assert(trace.requests =~= creation(dir).skip(index as int) + assembly(dir));
                }
            } else if mountable(dir) {
                assembly_runs_to_its_end(goal, dir, 0, rest);
                let tail = run_from(goal, dir, Phase::Assemble { index: 0 }, rest);
                assert(trace.result == tail.result);
                if all_succeeded(rest, count - 1) {
                    assert(assembly(dir).skip(0) =~= assembly(dir));
                    assert(trace.requests =~= creation(dir).skip(index as int) + assembly(dir));
                }
            }
        }
    }
}

/// A teardown that is under way ends well exactly when every remaining
/// unmount passes and, where the sandbox is to be deleted, the removal
/// succeeds. It has then asked for each unmount in order, the overlay's
/// last, and for the removal only after that.
pub proof fn teardown_runs_to_its_end(
    goal: Goal,
    dir: Seq<u8>,
    index: usize,
    responses: Seq<ResponseView>,
)
    requires
        index < TEARDOWN_STEPS,
    ensures
        run_from(goal, dir, Phase::Teardown { index }, responses).result is Some && run_from(
            goal,
            dir,
            Phase::Teardown { index },
            responses,
        ).result->Some_0 is Ok <==> all_passed(responses, index as int) && (goal == Goal::Delete
            ==> responses.len() > TEARDOWN_STEPS - index && succeeded(
            responses[TEARDOWN_STEPS - index],
        )),
        run_from(goal, dir, Phase::Teardown { index }, responses).result is Some && run_from(
            goal,
            dir,
            Phase::Teardown { index },
            responses,
        ).result->Some_0 is Ok ==> run_from(goal, dir, Phase::Teardown { index }, responses) == (
        Trace {
            requests: teardown(dir).skip(index as int) + removal(goal, dir),
            result: Some(Ok(true)),
        }),
    decreases TEARDOWN_STEPS - index,
{
    reveal_with_fuel(run_from, 2);
    let phase = Phase::Teardown { index };
    let trace = run_from(goal, dir, phase, responses);
    let count = TEARDOWN_STEPS - index;
    if responses.len() > 0 {
        let rest = responses.drop_first();
        if passed(index as int, responses[0]) {
            if index + 1 < TEARDOWN_STEPS {
                let next = (index + 1) as usize;
                teardown_runs_to_its_end(goal, dir, next, rest);
                let tail = run_from(goal, dir, Phase::Teardown { index: next }, rest);
                assert(trace.result == tail.result);
                if all_passed(responses, index as int) {
                    assert forall|k: int| 0 <= k < count - 1 implies passed(
                        next + k,
                        #[trigger] rest[k],
                    ) by {
                        assert(rest[k] == responses[k + 1]);
                    }
                }
                if all_passed(rest, next as int) {
                    assert forall|k: int| 0 <= k < count implies passed(
                        index + k,
                        #[trigger] responses[k],
                    ) by {
                        if k > 0 {
                            assert(responses[k] == rest[k - 1]);
                        }
                    }
                }
                if rest.len() > count - 1 {
                    assert(rest[count - 1] == responses[count as int]);
                }
                if tail.result is Some && tail.result->Some_0 is Ok {
                    assert(trace.requests =~= teardown(dir).skip(index as int) + removal(
                        goal,
                        dir,
                    ));
                }
            } else {
                assert(all_passed(responses, index as int));
                if goal == Goal::Delete {
                    if rest.len() > 0 {
                        assert(rest[0] == responses[1]);
                        if succeeded(rest[0]) {
                            assert(trace.requests =~= teardown(dir).skip(index as int) + removal(
                                goal,
                                dir,
                            ));
                        }
                    }
                } else {
                    assert(trace.requests =~= teardown(dir).skip(index as int) + removal(
                        goal,
                        dir,
                    ));
                }
            }
        } else {
            assert(!all_passed(responses, index as int));
        }
    }
}

/// How many responses the probe took: one where `merged` was missing, else
/// two.
pub open spec fn probe_length(responses: Seq<ResponseView>) -> int {
    if responses.len() >= 1 && not_found(responses[0]) {
        1
    } else {
        2
    }
}

/// Running a sandbox that does not exist yet: once the probe has found no
/// `merged` directory, and where every call succeeds, the three layers are
/// created and then the mounts assembled, each request in its order.
pub proof fn fresh_sandbox_is_created_and_mounted(dir: Seq<u8>, responses: Seq<ResponseView>)
    requires
        mountable(dir),
        responses.len() >= 1,
        not_found(responses[0]),
        all_succeeded(responses.drop_first(), LAYERS + ASSEMBLY_STEPS),
    ensures
        run(Goal::Activate, dir, responses) == (Trace {
            requests: probe(dir).take(1) + creation(dir) + assembly(dir),
            result: Some(Ok(false)),
        }),
{
    creation_runs_to_its_end(Goal::Activate, dir, 0, responses.drop_first());
    assert(creation(dir).skip(0) =~= creation(dir));
    assert(run(Goal::Activate, dir, responses).requests =~= probe(dir).take(1) + creation(dir)
        + assembly(dir));
}

/// An activation that reports a sandbox as newly activated has created all
/// three layers and made every mount of the assembly, in order, and each
/// of these calls succeeded.
pub proof fn activation_made_every_layer_and_mount(dir: Seq<u8>, responses: Seq<ResponseView>)
    requires
        run(Goal::Activate, dir, responses).result == Some(Ok::<bool, ReportView>(false)),
    ensures
        mountable(dir),
        !found_active(responses),
        run(Goal::Activate, dir, responses).requests == probe(dir).take(probe_length(responses))
            + creation(dir) + assembly(dir),
        all_succeeded(responses.skip(probe_length(responses)), LAYERS + ASSEMBLY_STEPS),
{
    reveal_with_fuel(run_from, 3);
    let trace = run(Goal::Activate, dir, responses);
    assert(creation(dir).skip(0) =~= creation(dir));
    if not_found(responses[0]) {
        let rest = responses.drop_first();
        creation_runs_to_its_end(Goal::Activate, dir, 0, rest);
        assert(rest =~= responses.skip(1));
        assert(trace.requests =~= probe(dir).take(1) + creation(dir) + assembly(dir));
    } else {
        let rest = responses.drop_first().drop_first();
        creation_runs_to_its_end(Goal::Activate, dir, 0, rest);
        assert(rest =~= responses.skip(2));
        assert(probe(dir).take(2) =~= probe(dir));
        assert(trace.requests =~= probe(dir).take(2) + creation(dir) + assembly(dir));
    }
}

/// Stopping an active sandbox: where every unmount passes, the bound
/// directories are detached in order and the overlay is unmounted last.
pub proof fn stop_of_active_unmounts(dir: Seq<u8>, responses: Seq<ResponseView>)
    requires
        found_active(responses),
        all_passed(responses.skip(2), 0),
    ensures
        run(Goal::Stop, dir, responses) == (Trace {
            requests: probe(dir) + teardown(dir),
            result: Some(Ok(true)),
        }),
{
    reveal_with_fuel(run_from, 3);
    let rest = responses.drop_first().drop_first();
    assert(rest =~= responses.skip(2));
    teardown_runs_to_its_end(Goal::Stop, dir, 0, rest);
    assert(teardown(dir).skip(0) + removal(Goal::Stop, dir) =~= teardown(dir));
    assert(run(Goal::Stop, dir, responses).requests =~= probe(dir) + teardown(dir));
}

/// A stop that reports to have unmounted an active sandbox has asked for
/// the whole teardown in order; every unmount passed, and that of the
/// overlay, the last one, succeeded.
pub proof fn stop_unmounted_everything(dir: Seq<u8>, responses: Seq<ResponseView>)
    requires
        run(Goal::Stop, dir, responses).result == Some(Ok::<bool, ReportView>(true)),
    ensures
        found_active(responses),
        run(Goal::Stop, dir, responses).requests == probe(dir) + teardown(dir),
        all_passed(responses.skip(2), 0),
        succeeded(responses[1 + TEARDOWN_STEPS]),
{
    reveal_with_fuel(run_from, 3);
    let rest = responses.drop_first().drop_first();
    assert(rest =~= responses.skip(2));
    teardown_runs_to_its_end(Goal::Stop, dir, 0, rest);
    assert(teardown(dir).skip(0) + removal(Goal::Stop, dir) =~= teardown(dir));
    assert(run(Goal::Stop, dir, responses).requests =~= probe(dir) + teardown(dir));
    assert(passed(0int + 4, rest[4]));
}

/// A delete that ends well has removed the sandbox directory as its last
/// act. Where it found the sandbox active, it has first asked for the whole
/// teardown, and the overlay's unmount succeeded before the removal was
/// asked for: the upper layer is never removed from under a live mount.
pub proof fn delete_removes_after_unmount(
    dir: Seq<u8>,
    responses: Seq<ResponseView>,
    was_active: bool,
)
    requires
        run(Goal::Delete, dir, responses).result == Some(Ok::<bool, ReportView>(was_active)),
    ensures
        was_active == found_active(responses),
        !was_active == found_inactive(responses),
        run(Goal::Delete, dir, responses).requests == probe(dir) + (if was_active {
            teardown(dir)
        } else {
            Seq::empty()
        }) + removal(Goal::Delete, dir),
        was_active ==> all_passed(responses.skip(2), 0) && succeeded(responses[1 + TEARDOWN_STEPS])
            && succeeded(responses[2 + TEARDOWN_STEPS]),
        !was_active ==> succeeded(responses[2]),
{
    reveal_with_fuel(run_from, 4);
    let trace = run(Goal::Delete, dir, responses);
    let rest = responses.drop_first().drop_first();
    assert(rest =~= responses.skip(2));
    if found_active(responses) {
        teardown_runs_to_its_end(Goal::Delete, dir, 0, rest);
        assert(teardown(dir).skip(0) =~= teardown(dir));
        assert(trace.requests =~= probe(dir) + teardown(dir) + removal(Goal::Delete, dir));
        assert(passed(0int + 4, rest[4]));
        assert(rest[5] == responses[7]);
    } else {
        assert(trace.requests =~= probe(dir) + Seq::<RequestView>::empty() + removal(
            Goal::Delete,
            dir,
        ));
    }
}

/// Deleting a sandbox: where every call passes, an active sandbox is
/// taken apart and then removed, an inactive one is removed at once.
pub proof fn delete_unmounts_then_removes(dir: Seq<u8>, responses: Seq<ResponseView>)
    requires
        found_active(responses) || found_inactive(responses),
        found_active(responses) ==> all_passed(responses.skip(2), 0) && responses.len() > 2
            + TEARDOWN_STEPS && succeeded(responses[2 + TEARDOWN_STEPS]),
        found_inactive(responses) ==> responses.len() > 2 && succeeded(responses[2]),
    ensures
        run(Goal::Delete, dir, responses) == (Trace {
            requests: probe(dir) + (if found_active(responses) {
                teardown(dir)
            } else {
                Seq::empty()
            }) + removal(Goal::Delete, dir),
            result: Some(Ok(found_active(responses))),
        }),
{
    reveal_with_fuel(run_from, 4);
    let trace = run(Goal::Delete, dir, responses);
    let rest = responses.drop_first().drop_first();
    assert(rest =~= responses.skip(2));
    if found_active(responses) {
        teardown_runs_to_its_end(Goal::Delete, dir, 0, rest);
        assert(rest[5] == responses[7]);
        assert(teardown(dir).skip(0) =~= teardown(dir));
        assert(trace.requests =~= probe(dir) + teardown(dir) + removal(Goal::Delete, dir));
    } else {
        assert(trace.requests =~= probe(dir) + Seq::<RequestView>::empty() + removal(
            Goal::Delete,
            dir,
        ));
    }
}

/// Whether a lifecycle that stands in `phase` has the sandbox unmounted, or
/// will have before it goes on to anything but unmounts.
pub open spec fn setting_up(phase: Phase) -> bool {
    match phase {
        Phase::Create { index } => true,
        Phase::Assemble { index } => true,
        _ => false,
    }
}

/// While a sandbox is being created and mounted, nothing is unmounted and
/// nothing is removed.
proof fn setup_removes_nothing(
    goal: Goal,
    dir: Seq<u8>,
    phase: Phase,
    responses: Seq<ResponseView>,
    at: int,
)
    requires
        setting_up(phase),
        0 <= at < run_from(goal, dir, phase, responses).requests.len(),
    ensures
        !(run_from(goal, dir, phase, responses).requests[at] is RemoveDirAll),
        !(run_from(goal, dir, phase, responses).requests[at] is Unmount),
    decreases responses.len(),
{
    if responses.len() > 0 {
        match turn(goal, dir, phase, responses[0]) {
            Turn::Continue(next) => {
                if at > 0 {
                    setup_removes_nothing(goal, dir, next, responses.drop_first(), at - 1);
                }
            },
            Turn::Finish(result) => {},
        }
    }
}

/// During a teardown the removal is asked for only as the request after the
/// last unmount, and only once every unmount has passed.
proof fn teardown_removes_last(
    goal: Goal,
    dir: Seq<u8>,
    index: usize,
    responses: Seq<ResponseView>,
    at: int,
)
    requires
        index < TEARDOWN_STEPS,
        0 <= at < run_from(goal, dir, Phase::Teardown { index }, responses).requests.len(),
        run_from(goal, dir, Phase::Teardown { index }, responses).requests[at] is RemoveDirAll,
    ensures
        goal == Goal::Delete,
        at == TEARDOWN_STEPS - index,
        all_passed(responses, index as int),
    decreases TEARDOWN_STEPS - index,
{
    reveal_with_fuel(run_from, 2);
    let phase = Phase::Teardown { index };
    assert(responses.len() > 0 && at > 0);
    let rest = responses.drop_first();
    assert(passed(index as int, responses[0]));
    if index + 1 < TEARDOWN_STEPS {
        let next = (index + 1) as usize;
        teardown_removes_last(goal, dir, next, rest, at - 1);
        assert forall|k: int| 0 <= k < TEARDOWN_STEPS - index implies passed(
            index + k,
            #[trigger] responses[k],
        ) by {
            if k > 0 {
                assert(responses[k] == rest[k - 1]);
            }
        }
    }
}

/// The sandbox directory is never removed while the sandbox is mounted: in
/// every run, a removal is asked for only where the goal is to delete, and
/// only after the probe has found the sandbox inactive or after the whole
/// teardown has passed, the overlay's unmount included.
pub proof fn removal_only_when_unmounted(
    goal: Goal,
    dir: Seq<u8>,
    responses: Seq<ResponseView>,
    at: int,
)
    requires
        0 <= at < run(goal, dir, responses).requests.len(),
        run(goal, dir, responses).requests[at] is RemoveDirAll,
    ensures
        goal == Goal::Delete,
        found_inactive(responses) && at == 2 || found_active(responses) && at == 2
            + TEARDOWN_STEPS && all_passed(responses.skip(2), 0) && succeeded(
            responses[1 + TEARDOWN_STEPS],
        ),
{
    reveal_with_fuel(run_from, 4);
    let rest1 = responses.drop_first();
    let rest = rest1.drop_first();
    assert(responses.len() > 0 && at > 0);
    match turn(goal, dir, Phase::ProbeMerged, responses[0]) {
        Turn::Continue(Phase::ProbeParent { merged }) => {
            assert(rest1.len() > 0 && at > 1);
            assert(rest =~= responses.skip(2));
            match turn(goal, dir, Phase::ProbeParent { merged }, rest1[0]) {
                Turn::Continue(Phase::Teardown { index }) => {
                    teardown_removes_last(goal, dir, 0, rest, at - 2);
                    assert(passed(0int + 4, rest[4]));
                },
                Turn::Continue(Phase::Create { index }) => {
                    setup_removes_nothing(goal, dir, Phase::Create { index }, rest, at - 2);
                },
                _ => {},
            }
        },
        Turn::Continue(Phase::Create { index }) => {
            setup_removes_nothing(goal, dir, Phase::Create { index }, rest1, at - 1);
        },
        _ => {},
    }
}

/// Whether a report of this kind can come out of a lifecycle that stands in
/// a phase after the first.
pub open spec fn later_kind(dir: Seq<u8>, kind: Error) -> bool {
    kind == Error::Io || kind == Error::InvalidArgument && !mountable(dir)
}

/// After the first phase, every error is an I/O error, but for the one
/// that says that the paths cannot be mounted.
proof fn later_errors_are_io(
    goal: Goal,
    dir: Seq<u8>,
    phase: Phase,
    responses: Seq<ResponseView>,
)
    requires
        phase != Phase::ProbeMerged,
    ensures
        run_from(goal, dir, phase, responses).result matches Some(Err(report)) ==> later_kind(
            dir,
            report.kind,
        ),
    decreases responses.len(),
{
    if responses.len() > 0 {
        match turn(goal, dir, phase, responses[0]) {
            Turn::Continue(next) => {
                later_errors_are_io(goal, dir, next, responses.drop_first());
            },
            Turn::Finish(result) => {},
        }
    }
}

/// The kinds of error that a lifecycle can end with. `SessionNotFound`
/// comes only from a missing `merged` directory where the sandbox has to
/// exist; `InvalidArgument` only from an activation whose paths hold a NUL
/// byte; everything else is an I/O error.
pub proof fn error_kinds(goal: Goal, dir: Seq<u8>, responses: Seq<ResponseView>)
    ensures
        run(goal, dir, responses).result matches Some(Err(report)) ==> {
            ||| report.kind == Error::Io
            ||| report.kind == Error::SessionNotFound && goal != Goal::Activate && not_found(
                responses[0],
            )
            ||| report.kind == Error::InvalidArgument && goal == Goal::Activate && !mountable(dir)
        },
{
    reveal_with_fuel(run_from, 2);
    if responses.len() > 0 {
        match turn(goal, dir, Phase::ProbeMerged, responses[0]) {
            Turn::Continue(next) => {
                later_errors_are_io(goal, dir, next, responses.drop_first());
                if goal != Goal::Activate {
                    if next is ProbeParent && responses.len() > 1 {
                        match turn(goal, dir, next, responses[1]) {
                            Turn::Continue(after) => {
                                teardown_or_removal_errors_are_io(
                                    goal,
                                    dir,
                                    after,
                                    responses.drop_first().drop_first(),
                                );
                            },
                            Turn::Finish(result) => {},
                        }
                    }
                }
            },
            Turn::Finish(result) => {},
        }
    }
}

/// Unmounting and removing fail with I/O errors only.
proof fn teardown_or_removal_errors_are_io(
    goal: Goal,
    dir: Seq<u8>,
    phase: Phase,
    responses: Seq<ResponseView>,
)
    requires
        phase is Teardown || phase is Remove,
    ensures
        run_from(goal, dir, phase, responses).result matches Some(Err(report)) ==> report.kind
            == Error::Io,
    decreases responses.len(),
{
    if responses.len() > 0 {
        match turn(goal, dir, phase, responses[0]) {
            Turn::Continue(next) => {
                teardown_or_removal_errors_are_io(goal, dir, next, responses.drop_first());
            },
            Turn::Finish(result) => {},
        }
    }
}

} // verus!
