//! What holds of every batch, whatever the kernel answers.

use vstd::prelude::*;
use vstd::string::*;
use crate::error::{Error, ReportView};
use crate::lifecycle::{active, pending, Goal, LifecycleView, Phase, StepView};
use crate::lifecycle_laws::{inside, not_found, pending_is_inside, succeeded, touched};
use crate::mounts::merged_dir;
use crate::sessions::{goal_of, list_piece, named, BatchView, Job, StageView};
use crate::store::session_dir;
use crate::syscall::{EntryView, RequestView, ResponseView};

verus! {

/// What a batch did: the requests it made, in order, and its result where
/// it ended.
pub struct BatchTrace {
    pub requests: Seq<RequestView>,
    pub result: Option<Result<(), ReportView>>,
}

/// The run of a batch that is in `state` and has just come to `step`,
/// against `responses`.
pub open spec fn batch_from(
    state: BatchView,
    step: StepView<()>,
    responses: Seq<ResponseView>,
) -> BatchTrace
    decreases responses.len(),
{
    match step {
        StepView::Finish(result) => BatchTrace { requests: Seq::empty(), result: Some(result) },
        StepView::Perform(request) => if responses.len() == 0 {
            BatchTrace { requests: seq![request], result: None }
        } else {
            let (next, then) = state.advance(responses[0]);
            let rest = batch_from(next, then, responses.drop_first());
            BatchTrace { requests: seq![request] + rest.requests, result: rest.result }
        },
    }
}

/// The run of a job on the sandboxes under `root`: on those of `names`, or
/// on all of them where there is no list.
pub open spec fn batch_run(
    job: Job,
    names: Option<Seq<Seq<u8>>>,
    root: Seq<u8>,
    responses: Seq<ResponseView>,
) -> BatchTrace {
    let (state, step) = BatchView::begin(job, names, root);
    batch_from(state, step, responses)
}

/// Everything that `requests` write to standard output, in order.
pub open spec fn written(requests: Seq<RequestView>) -> Seq<u8>
    decreases requests.len(),
{
    if requests.len() == 0 {
        Seq::empty()
    } else {
        (match requests[0] {
            RequestView::Write { bytes } => bytes,
            _ => Seq::empty(),
        }) + written(requests.drop_first())
    }
}

/// How a listing shows one sandbox: its name, between brackets where it is
/// active.
pub open spec fn shown(name: Seq<u8>, is_active: bool) -> Seq<u8> {
    if is_active {
        "[".spec_bytes() + name + "]".spec_bytes()
    } else {
        name
    }
}

/// The line of a listing from sandbox `from` on: each sandbox as it is
/// shown, with `", "` before each but the very first.
pub open spec fn list_line(names: Seq<Seq<u8>>, ids: Seq<(u64, u64)>, from: int) -> Seq<u8>
    decreases names.len() - from,
{
    if 0 <= from < names.len() {
        (if from > 0 {
            ", ".spec_bytes()
        } else {
            Seq::empty()
        }) + shown(names[from], active(ids[from].0, ids[from].1)) + list_line(names, ids, from + 1)
    } else {
        Seq::empty()
    }
}

/// The answers that a listing gets for the sandboxes from `from` on, where
/// every sandbox exists and every write succeeds: for each sandbox the id
/// of the mount that holds `merged`, that of the mount that holds the
/// sandbox directory, and the success of the write.
pub open spec fn list_answers(ids: Seq<(u64, u64)>, from: int) -> Seq<ResponseView>
    decreases ids.len() - from,
{
    if 0 <= from < ids.len() {
        seq![
            ResponseView::MountId(ids[from].0),
            ResponseView::MountId(ids[from].1),
            ResponseView::Done,
        ] + list_answers(ids, from + 1)
    } else {
        Seq::empty()
    }
}

/// The three requests that a listing makes for one sandbox that exists:
/// two for the probe, then the write of its name.
pub open spec fn listed_one(
    root: Seq<u8>,
    name: Seq<u8>,
    ids: (u64, u64),
    first: bool,
) -> Seq<RequestView> {
    seq![
        RequestView::MountId { path: merged_dir(session_dir(root, name)) },
        RequestView::MountId { path: session_dir(root, name) },
        RequestView::Write { bytes: list_piece(!first, name, active(ids.0, ids.1)) },
    ]
}

/// One sandbox of a listing: the probe's two answers lead to the write of
/// the name, and the success of the write leads to the next sandbox.
proof fn listing_visits_one(state: BatchView, name: Seq<u8>, ids: (u64, u64), from: int)
    requires
        state.job == Job::List,
        0 <= from < state.queue.len(),
        state.queue[from] == EntryView::Name(name),
    ensures
        ({
            let (first, step1) = state.visit(from);
            let (second, step2) = first.advance(ResponseView::MountId(ids.0));
            let (third, step3) = second.advance(ResponseView::MountId(ids.1));
            let (fourth, step4) = third.advance(ResponseView::Done);
            let requests = listed_one(state.root, name, ids, !state.written);
            &&& step1 == StepView::<()>::Perform(requests[0])
            &&& step2 == StepView::<()>::Perform(requests[1])
            &&& step3 == StepView::<()>::Perform(requests[2])
            &&& (fourth, step4) == (BatchView { written: true, ..state }).visit(from + 1)
        }),
{
    let (first, step1) = state.visit(from);
    let (second, step2) = first.advance(ResponseView::MountId(ids.0));
    let (third, step3) = second.advance(ResponseView::MountId(ids.1));
    assert(third.current_name() == name);
}

/// A run that makes three requests in a row goes on from the fourth step.
proof fn batch_from_three(
    state: BatchView,
    step: StepView<()>,
    responses: Seq<ResponseView>,
)
    requires
        responses.len() >= 3,
        step is Perform,
        state.advance(responses[0]).1 is Perform,
        state.advance(responses[0]).0.advance(responses[1]).1 is Perform,
    ensures
        ({
            let (second, step2) = state.advance(responses[0]);
            let (third, step3) = second.advance(responses[1]);
            let (fourth, step4) = third.advance(responses[2]);
            let tail = batch_from(fourth, step4, responses.skip(3));
            batch_from(state, step, responses) == (BatchTrace {
                requests: seq![step->Perform_0, step2->Perform_0, step3->Perform_0]
                    + tail.requests,
                result: tail.result,
            })
        }),
{
    reveal_with_fuel(batch_from, 4);
    let (second, step2) = state.advance(responses[0]);
    let (third, step3) = second.advance(responses[1]);
    let (fourth, step4) = third.advance(responses[2]);
    assert(responses.drop_first().drop_first().drop_first() =~= responses.skip(3));
    let tail = batch_from(fourth, step4, responses.skip(3));
    assert(batch_from(state, step, responses).requests =~= seq![
        step->Perform_0,
        step2->Perform_0,
        step3->Perform_0,
    ] + tail.requests);
}

/// What the requests for one listed sandbox write is its piece of the line.
proof fn listed_one_writes_its_piece(root: Seq<u8>, name: Seq<u8>, ids: (u64, u64), first: bool)
    ensures
        written(listed_one(root, name, ids, first)) == list_piece(
            !first,
            name,
            active(ids.0, ids.1),
        ),
{
    reveal_with_fuel(written, 4);
    let requests = listed_one(root, name, ids, first);
    assert(requests.drop_first().drop_first().drop_first() =~= Seq::<RequestView>::empty());
    assert(written(requests) =~= list_piece(!first, name, active(ids.0, ids.1)));
}

/// A listing that stands before a sandbox that exists makes the three
/// requests for it and goes on with the next sandbox.
proof fn listing_goes_on(
    state: BatchView,
    names: Seq<Seq<u8>>,
    ids: Seq<(u64, u64)>,
    from: int,
)
    requires
        state.job == Job::List,
        state.queue == named(names),
        ids.len() == names.len(),
        0 <= from < names.len(),
    ensures
        ({
            let after = BatchView { written: true, ..state };
            let tail = batch_from(
                after.visit(from + 1).0,
                after.visit(from + 1).1,
                list_answers(ids, from + 1),
            );
            batch_from(state.visit(from).0, state.visit(from).1, list_answers(ids, from)) == (
            BatchTrace {
                requests: listed_one(state.root, names[from], ids[from], !state.written)
                    + tail.requests,
                result: tail.result,
            })
        }),
{
    let (next, step) = state.visit(from);
    let answers = list_answers(ids, from);
    assert(answers.skip(3) =~= list_answers(ids, from + 1));
    assert(answers[0] == ResponseView::MountId(ids[from].0));
    assert(answers[1] == ResponseView::MountId(ids[from].1));
    assert(answers[2] == ResponseView::Done);
    listing_visits_one(state, names[from], ids[from], from);
    batch_from_three(next, step, answers);
}

/// A listing that stands before sandbox `from` writes the rest of the line
/// and ends well.
proof fn listing_writes_the_rest(
    state: BatchView,
    names: Seq<Seq<u8>>,
    ids: Seq<(u64, u64)>,
    from: int,
)
    requires
        state.job == Job::List,
        state.queue == named(names),
        ids.len() == names.len(),
        0 <= from <= names.len(),
        state.written == (from > 0),
    ensures
        batch_from(state.visit(from).0, state.visit(from).1, list_answers(ids, from)).result
            == Some(Ok::<(), ReportView>(())),
        written(
            batch_from(state.visit(from).0, state.visit(from).1, list_answers(ids, from)).requests,
        ) == list_line(names, ids, from),
    decreases names.len() - from,
{
    let trace = batch_from(state.visit(from).0, state.visit(from).1, list_answers(ids, from));
    if from < names.len() {
        let after = BatchView { written: true, ..state };
        listing_goes_on(state, names, ids, from);
        listing_writes_the_rest(after, names, ids, from + 1);
        let tail = batch_from(
            after.visit(from + 1).0,
            after.visit(from + 1).1,
            list_answers(ids, from + 1),
        );
        let head = listed_one(state.root, names[from], ids[from], from == 0);
        written_of_concat(head, tail.requests);
        listed_one_writes_its_piece(state.root, names[from], ids[from], from == 0);
        assert(written(trace.requests) =~= list_line(names, ids, from));
    } else {
        assert(list_answers(ids, from) =~= Seq::<ResponseView>::empty());
    }
}

/// What two runs of requests write is what the first writes, followed by
/// what the second writes.
pub proof fn written_of_concat(first: Seq<RequestView>, second: Seq<RequestView>)
    ensures
        written(first + second) == written(first) + written(second),
    decreases first.len(),
{
    if first.len() == 0 {
        assert(first + second =~= second);
        assert(written(first) + written(second) =~= written(second));
    } else {
        assert((first + second).drop_first() =~= first.drop_first() + second);
        written_of_concat(first.drop_first(), second);
        assert(written(first + second) =~= written(first) + written(second));
    }
}

/// The line of a listing. Where the sandbox directory holds the sandboxes
/// `names`, each with the two mount ids that the probe finds, and every
/// write succeeds, the listing ends well and has written one line: the
/// names in the order of the directory, the active ones between brackets,
/// `", "` between them. The line depends on nothing but the names and the
/// mount ids, so that two listings of an unchanged system write the same.
pub proof fn listing_writes_one_line(root: Seq<u8>, names: Seq<Seq<u8>>, ids: Seq<(u64, u64)>)
    requires
        ids.len() == names.len(),
    ensures
        batch_run(
            Job::List,
            None,
            root,
            seq![ResponseView::Entries(named(names))] + list_answers(ids, 0),
        ).result == Some(Ok::<(), ReportView>(())),
        written(
            batch_run(
                Job::List,
                None,
                root,
                seq![ResponseView::Entries(named(names))] + list_answers(ids, 0),
            ).requests,
        ) == list_line(names, ids, 0),
{
    reveal_with_fuel(batch_from, 2);
    reveal_with_fuel(written, 2);
    let (state, step) = BatchView::begin(Job::List, None, root);
    let responses = seq![ResponseView::Entries(named(names))] + list_answers(ids, 0);
    assert(responses.drop_first() =~= list_answers(ids, 0));
    let listed = BatchView { queue: named(names), ..state };
    listing_writes_the_rest(listed, names, ids, 0);
    let (next, then) = listed.visit(0);
    let tail = batch_from(next, then, list_answers(ids, 0));
    let trace = batch_run(Job::List, None, root, responses);
    assert(trace.requests =~= seq![RequestView::ReadDir { path: root }] + tail.requests);
    written_of_concat(seq![RequestView::ReadDir { path: root }], tail.requests);
    assert(written(seq![RequestView::ReadDir { path: root }]) =~= Seq::<u8>::empty()) by {
        assert(seq![RequestView::ReadDir { path: root }].drop_first() =~= Seq::<
            RequestView,
        >::empty());
    }
    assert(written(trace.requests) =~= list_line(names, ids, 0));
}

/// A sandbox directory that does not exist holds no sandboxes: whatever
/// the job, nothing but the listing is asked for, and the batch ends well.
pub proof fn missing_root_holds_nothing(job: Job, root: Seq<u8>, responses: Seq<ResponseView>)
    requires
        responses.len() >= 1,
        not_found(responses[0]),
    ensures
        batch_run(job, None, root, responses) == (BatchTrace {
            requests: seq![RequestView::ReadDir { path: root }],
            result: Some(Ok(())),
        }),
{
    reveal_with_fuel(batch_from, 3);
    assert(batch_run(job, None, root, responses).requests =~= seq![
        RequestView::ReadDir { path: root },
    ]);
}

/// A named sandbox that does not exist ends the batch at once with
/// `SessionNotFound`: nothing is unmounted and nothing is removed.
pub proof fn missing_name_is_not_found(
    job: Job,
    root: Seq<u8>,
    names: Seq<Seq<u8>>,
    responses: Seq<ResponseView>,
)
    requires
        names.len() >= 1,
        responses.len() >= 1,
        not_found(responses[0]),
    ensures
        batch_run(job, Some(names), root, responses).requests == seq![
            RequestView::MountId { path: merged_dir(session_dir(root, names[0])) },
        ],
        batch_run(job, Some(names), root, responses).result matches Some(Err(report))
            && report.kind == Error::SessionNotFound,
{
    reveal_with_fuel(batch_from, 3);
    let trace = batch_run(job, Some(names), root, responses);
    assert(trace.requests =~= seq![
        RequestView::MountId { path: merged_dir(session_dir(root, names[0])) },
    ]);
}

/// Whether `request` is one that a batch may make for sandboxes under
/// `root`: it writes to standard output, or it acts on `root` or on a path
/// below it.
pub open spec fn within(root: Seq<u8>, request: RequestView) -> bool {
    request is Write || inside(root, request)
}

/// Whether a batch in `state` works below its root: the sandbox that it
/// visits lies there.
pub open spec fn rooted(state: BatchView) -> bool {
    state.stage matches StageView::Visiting(lifecycle) ==> state.root.is_prefix_of(lifecycle.dir)
}

/// One step of a batch that works below its root leaves it there, and asks
/// for nothing outside.
proof fn step_stays_under_root(state: BatchView, response: ResponseView)
    requires
        rooted(state),
    ensures
        rooted(state.advance(response).0),
        state.advance(response).0.root == state.root,
        state.advance(response).1 matches StepView::Perform(request) ==> within(
            state.root,
            request,
        ),
{
    let (next, step) = state.advance(response);
    match state.stage {
        StageView::Visiting(lifecycle) => {
            let (after, then) = lifecycle.advance(response);
            pending_is_inside(lifecycle.dir, after.phase);
        },
        _ => {},
    }
    match next.stage {
        StageView::Visiting(lifecycle) => {
            pending_is_inside(lifecycle.dir, lifecycle.phase);
        },
        _ => {},
    }
}

/// A batch never acts outside the directory that holds the sandboxes:
/// whatever it is told, every request of a batch that works below its root
/// writes to standard output or names a path at or below the root.
proof fn batch_stays_under_root(
    state: BatchView,
    step: StepView<()>,
    responses: Seq<ResponseView>,
    at: int,
)
    requires
        rooted(state),
        step matches StepView::Perform(request) ==> within(state.root, request),
        0 <= at < batch_from(state, step, responses).requests.len(),
    ensures
        within(state.root, batch_from(state, step, responses).requests[at]),
    decreases responses.len(),
{
    if step is Perform && responses.len() > 0 && at > 0 {
        step_stays_under_root(state, responses[0]);
        let (next, then) = state.advance(responses[0]);
        batch_stays_under_root(next, then, responses.drop_first(), at - 1);
    }
}

/// Listing, stopping and deleting never act outside the directory that
/// holds the sandboxes.
pub proof fn jobs_stay_under_root(
    job: Job,
    names: Option<Seq<Seq<u8>>>,
    root: Seq<u8>,
    responses: Seq<ResponseView>,
    at: int,
)
    requires
        0 <= at < batch_run(job, names, root, responses).requests.len(),
    ensures
        within(root, batch_run(job, names, root, responses).requests[at]),
{
    let (state, step) = BatchView::begin(job, names, root);
    match state.stage {
        StageView::Visiting(lifecycle) => {
            pending_is_inside(lifecycle.dir, lifecycle.phase);
        },
        _ => {},
    }
    batch_stays_under_root(state, step, responses, at);
}

/// The answers that a stop gets for sandboxes that are all inactive: for
/// each of them, from `from` on, the same mount id twice.
pub open spec fn inactive_answers(ids: Seq<u64>, from: int) -> Seq<ResponseView>
    decreases ids.len() - from,
{
    if 0 <= from < ids.len() {
        seq![ResponseView::MountId(ids[from]), ResponseView::MountId(ids[from])]
            + inactive_answers(ids, from + 1)
    } else {
        Seq::empty()
    }
}

/// The probes of the sandboxes `names` under `root`, from `from` on.
pub open spec fn probes(root: Seq<u8>, names: Seq<Seq<u8>>, from: int) -> Seq<RequestView>
    decreases names.len() - from,
{
    if 0 <= from < names.len() {
        seq![
            RequestView::MountId { path: merged_dir(session_dir(root, names[from])) },
            RequestView::MountId { path: session_dir(root, names[from]) },
        ] + probes(root, names, from + 1)
    } else {
        Seq::empty()
    }
}

/// A stop that stands before an inactive sandbox probes it and goes on
/// with the next.
proof fn stop_passes_inactive(state: BatchView, names: Seq<Seq<u8>>, ids: Seq<u64>, from: int)
    requires
        state.job == Job::Stop,
        state.queue == named(names),
        ids.len() == names.len(),
        0 <= from < names.len(),
    ensures
        ({
            let tail = batch_from(
                state.visit(from + 1).0,
                state.visit(from + 1).1,
                inactive_answers(ids, from + 1),
            );
            batch_from(state.visit(from).0, state.visit(from).1, inactive_answers(ids, from)) == (
            BatchTrace {
                requests: seq![
                    RequestView::MountId { path: merged_dir(session_dir(state.root, names[from])) },
                    RequestView::MountId { path: session_dir(state.root, names[from]) },
                ] + tail.requests,
                result: tail.result,
            })
        }),
{
    reveal_with_fuel(batch_from, 3);
    let (next, step) = state.visit(from);
    let answers = inactive_answers(ids, from);
    assert(answers.drop_first().drop_first() =~= inactive_answers(ids, from + 1));
    assert(answers[0] == ResponseView::MountId(ids[from]));
    assert(answers[1] == ResponseView::MountId(ids[from]));
    let (second, step2) = next.advance(answers[0]);
    let (third, step3) = second.advance(answers[1]);
    assert((third, step3) == state.visit(from + 1));
    let tail = batch_from(third, step3, inactive_answers(ids, from + 1));
    assert(batch_from(next, step, answers).requests =~= seq![
        RequestView::MountId { path: merged_dir(session_dir(state.root, names[from])) },
        RequestView::MountId { path: session_dir(state.root, names[from]) },
    ] + tail.requests);
}

/// A stop that stands before sandbox `from`, where all that are left are
/// inactive, probes each of them and ends well.
proof fn stop_passes_all_inactive(state: BatchView, names: Seq<Seq<u8>>, ids: Seq<u64>, from: int)
    requires
        state.job == Job::Stop,
        state.queue == named(names),
        ids.len() == names.len(),
        0 <= from <= names.len(),
    ensures
        batch_from(state.visit(from).0, state.visit(from).1, inactive_answers(ids, from)) == (
        BatchTrace { requests: probes(state.root, names, from), result: Some(Ok(())) }),
    decreases names.len() - from,
{
    if from < names.len() {
        stop_passes_inactive(state, names, ids, from);
        stop_passes_all_inactive(state, names, ids, from + 1);
    } else {
        assert(inactive_answers(ids, from) =~= Seq::<ResponseView>::empty());
    }
}

/// Stopping sandboxes that are all inactive does nothing: each is probed,
/// in the order of the list, nothing is unmounted, and the batch ends well.
/// So goes the second of two stops in a row.
pub proof fn stop_of_all_inactive_is_no_op(root: Seq<u8>, names: Seq<Seq<u8>>, ids: Seq<u64>)
    requires
        ids.len() == names.len(),
    ensures
        batch_run(Job::Stop, Some(names), root, inactive_answers(ids, 0)) == (BatchTrace {
            requests: probes(root, names, 0),
            result: Some(Ok(())),
        }),
{
    let (state, step) = BatchView::begin(Job::Stop, Some(names), root);
    let queued = BatchView {
        job: Job::Stop,
        root,
        queue: named(names),
        at: 0,
        written: false,
        stage: StageView::Listing,
    };
    stop_passes_all_inactive(queued, names, ids, 0);
}

} // verus!
