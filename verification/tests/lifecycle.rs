use forkfs::error::{Error, Report};
use forkfs::lifecycle::{Goal, Lifecycle, Step};
use forkfs::mounts::{is_mountable, options_of};
use forkfs::syscall::{IoFailure, Request, Response};

fn failure(code: i32) -> Response {
    Response::Failed(IoFailure { code, description: format!("os error {code}").into_bytes() })
}

fn drive(goal: Goal, dir: &[u8], responses: Vec<Response>) -> (Vec<Request>, Option<Result<bool, Report>>) {
    let (mut lifecycle, first) = Lifecycle::begin(goal, dir.to_vec());
    let mut requests = vec![first];
    for response in responses {
        let (next, step) = lifecycle.advance(response);
        lifecycle = next;
        match step {
            Step::Perform(request) => requests.push(request),
            Step::Finish(result) => {
                assert!(lifecycle.is_finished());
                return (requests, Some(result));
            }
        }
    }
    (requests, None)
}

fn stat(path: &str) -> Request {
    Request::MountId { path: path.as_bytes().to_vec() }
}

fn unmount(path: &str, detach: bool) -> Request {
    Request::Unmount { target: path.as_bytes().to_vec(), detach }
}

fn teardown() -> Vec<Request> {
    vec![
        unmount("/c/forkfs/s1/merged/proc", true),
        unmount("/c/forkfs/s1/merged/dev", true),
        unmount("/c/forkfs/s1/merged/run", true),
        unmount("/c/forkfs/s1/merged/tmp", true),
        unmount("/c/forkfs/s1/merged", false),
    ]
}

fn setup() -> Vec<Request> {
    let bind = |name: &str| Request::BindRecursive {
        source: format!("/{name}").into_bytes(),
        target: format!("/c/forkfs/s1/merged/{name}").into_bytes(),
    };
    let downstream =
        |name: &str| Request::MakeDownstream { target: format!("/c/forkfs/s1/merged/{name}").into_bytes() };
    vec![
        Request::CreateDirAll { path: b"/c/forkfs/s1/diff".to_vec() },
        Request::CreateDirAll { path: b"/c/forkfs/s1/work".to_vec() },
        Request::CreateDirAll { path: b"/c/forkfs/s1/merged".to_vec() },
        Request::MountOverlay {
            target: b"/c/forkfs/s1/merged".to_vec(),
            options: b"lowerdir=/,upperdir=/c/forkfs/s1/diff,workdir=/c/forkfs/s1/work".to_vec(),
        },
        bind("proc"),
        downstream("proc"),
        bind("dev"),
        downstream("dev"),
        bind("run"),
        downstream("run"),
        bind("tmp"),
        downstream("tmp"),
    ]
}

fn done(count: usize) -> Vec<Response> {
    (0..count).map(|_| Response::Done).collect()
}

#[test]
fn probe_reports_active_when_mount_ids_differ() {
    let (requests, result) = drive(Goal::Query, b"/c/forkfs/s1", vec![Response::MountId(41), Response::MountId(7)]);
    assert_eq!(requests, vec![stat("/c/forkfs/s1/merged"), stat("/c/forkfs/s1")]);
    assert_eq!(result, Some(Ok(true)));
}

#[test]
fn probe_reports_inactive_when_mount_ids_agree() {
    let (_, result) = drive(Goal::Query, b"/c/forkfs/s1", vec![Response::MountId(7), Response::MountId(7)]);
    assert_eq!(result, Some(Ok(false)));
}

#[test]
fn probe_of_missing_sandbox_is_session_not_found() {
    for goal in [Goal::Query, Goal::Stop, Goal::Delete] {
        let (requests, result) = drive(goal, b"/c/forkfs/s1", vec![failure(2)]);
        assert_eq!(requests, vec![stat("/c/forkfs/s1/merged")]);
        let report = result.unwrap().unwrap_err();
        assert_eq!(report.kind, Error::SessionNotFound);
        assert_eq!(
            report.context,
            vec![
                b"os error 2".to_vec(),
                b"Failed to stat \"/c/forkfs/s1/merged\"".to_vec(),
                b"An IO error occurred.".to_vec(),
            ]
        );
    }
}

#[test]
fn probe_failure_other_than_missing_is_io() {
    for goal in [Goal::Query, Goal::Activate, Goal::Stop, Goal::Delete] {
        let (_, result) = drive(goal, b"/c/forkfs/s1", vec![failure(13)]);
        assert_eq!(result.unwrap().unwrap_err().kind, Error::Io);
    }
}

#[test]
fn probe_failure_on_parent_is_io() {
    let (requests, result) = drive(Goal::Stop, b"/c/forkfs/s1", vec![Response::MountId(3), failure(2)]);
    assert_eq!(requests.len(), 2);
    let report = result.unwrap().unwrap_err();
    assert_eq!(report.kind, Error::Io);
    assert_eq!(report.context[1], b"Failed to stat \"/c/forkfs/s1\"".to_vec());
}

#[test]
fn activate_creates_layers_then_mounts() {
    let mut responses = vec![failure(2)];
    responses.extend(done(12));
    let (requests, result) = drive(Goal::Activate, b"/c/forkfs/s1", responses);
    let mut expected = vec![stat("/c/forkfs/s1/merged")];
    expected.extend(setup());
    assert_eq!(requests, expected);
    assert_eq!(result, Some(Ok(false)));
}

#[test]
fn activate_of_inactive_existing_sandbox_mounts_again() {
    let mut responses = vec![Response::MountId(5), Response::MountId(5)];
    responses.extend(done(12));
    let (requests, result) = drive(Goal::Activate, b"/c/forkfs/s1", responses);
    let mut expected = vec![stat("/c/forkfs/s1/merged"), stat("/c/forkfs/s1")];
    expected.extend(setup());
    assert_eq!(requests, expected);
    assert_eq!(result, Some(Ok(false)));
}

#[test]
fn activate_of_active_sandbox_does_no_mounting() {
    let (requests, result) =
        drive(Goal::Activate, b"/c/forkfs/s1", vec![Response::MountId(9), Response::MountId(5)]);
    assert_eq!(requests, vec![stat("/c/forkfs/s1/merged"), stat("/c/forkfs/s1")]);
    assert_eq!(result, Some(Ok(true)));
}

#[test]
fn activate_stops_at_first_failed_mount() {
    let mut responses = vec![failure(2)];
    responses.extend(done(5));
    responses.push(failure(1));
    let (requests, result) = drive(Goal::Activate, b"/c/forkfs/s1", responses);
    assert_eq!(requests.len(), 7);
    let report = result.unwrap().unwrap_err();
    assert_eq!(report.kind, Error::Io);
    assert_eq!(report.context[1], b"Failed to enslave mount \"/c/forkfs/s1/merged/proc\"".to_vec());
}

#[test]
fn activate_reports_failed_directory_creation() {
    let (requests, result) = drive(Goal::Activate, b"/c/forkfs/s1", vec![failure(2), Response::Done, failure(28)]);
    assert_eq!(requests.len(), 3);
    let report = result.unwrap().unwrap_err();
    assert_eq!(report.kind, Error::Io);
    assert_eq!(report.context[1], b"Failed to create directory \"/c/forkfs/s1/work\"".to_vec());
}

#[test]
fn activate_with_nul_in_path_is_invalid_argument() {
    let mut responses = vec![failure(2)];
    responses.extend(done(3));
    let (requests, result) = drive(Goal::Activate, b"/c/fork\0fs/s1", responses);
    assert_eq!(requests.len(), 4);
    let report = result.unwrap().unwrap_err();
    assert_eq!(report.kind, Error::InvalidArgument);
    assert_eq!(report.context, vec![b"Invalid path bytes".to_vec()]);
}

#[test]
fn stop_unmounts_binds_then_overlay() {
    let mut responses = vec![Response::MountId(9), Response::MountId(5)];
    responses.extend(done(5));
    let (requests, result) = drive(Goal::Stop, b"/c/forkfs/s1", responses);
    let mut expected = vec![stat("/c/forkfs/s1/merged"), stat("/c/forkfs/s1")];
    expected.extend(teardown());
    assert_eq!(requests, expected);
    assert_eq!(result, Some(Ok(true)));
}

#[test]
fn stop_of_inactive_sandbox_is_a_no_op() {
    let (requests, result) = drive(Goal::Stop, b"/c/forkfs/s1", vec![Response::MountId(5), Response::MountId(5)]);
    assert_eq!(requests, vec![stat("/c/forkfs/s1/merged"), stat("/c/forkfs/s1")]);
    assert_eq!(result, Some(Ok(false)));
}

#[test]
fn stop_skips_binds_that_are_not_mounted() {
    let responses = vec![
        Response::MountId(9),
        Response::MountId(5),
        Response::Done,
        failure(22),
        failure(22),
        failure(22),
        Response::Done,
    ];
    let (requests, result) = drive(Goal::Stop, b"/c/forkfs/s1", responses);
    assert_eq!(requests.len(), 7);
    assert_eq!(result, Some(Ok(true)));
}

#[test]
fn stop_surfaces_busy_overlay() {
    let mut responses = vec![Response::MountId(9), Response::MountId(5)];
    responses.extend(done(4));
    responses.push(failure(16));
    let (_, result) = drive(Goal::Stop, b"/c/forkfs/s1", responses);
    let report = result.unwrap().unwrap_err();
    assert_eq!(report.kind, Error::Io);
    assert_eq!(report.context[1], b"Failed to unmount directory \"/c/forkfs/s1/merged\"".to_vec());
}

#[test]
fn stop_does_not_skip_an_overlay_that_is_no_mount_point() {
    let mut responses = vec![Response::MountId(9), Response::MountId(5)];
    responses.extend(done(4));
    responses.push(failure(22));
    let (_, result) = drive(Goal::Stop, b"/c/forkfs/s1", responses);
    assert_eq!(result.unwrap().unwrap_err().kind, Error::Io);
}

#[test]
fn stop_surfaces_other_failures_of_a_bind() {
    let responses = vec![Response::MountId(9), Response::MountId(5), failure(1)];
    let (requests, result) = drive(Goal::Stop, b"/c/forkfs/s1", responses);
    assert_eq!(requests.len(), 3);
    let report = result.unwrap().unwrap_err();
    assert_eq!(report.context[1], b"Failed to unmount directory \"/c/forkfs/s1/merged/proc\"".to_vec());
}

#[test]
fn delete_unmounts_then_removes() {
    let mut responses = vec![Response::MountId(9), Response::MountId(5)];
    responses.extend(done(6));
    let (requests, result) = drive(Goal::Delete, b"/c/forkfs/s1", responses);
    let mut expected = vec![stat("/c/forkfs/s1/merged"), stat("/c/forkfs/s1")];
    expected.extend(teardown());
    expected.push(Request::RemoveDirAll { path: b"/c/forkfs/s1".to_vec() });
    assert_eq!(requests, expected);
    assert_eq!(result, Some(Ok(true)));
}

#[test]
fn delete_of_inactive_sandbox_removes_at_once() {
    let responses = vec![Response::MountId(5), Response::MountId(5), Response::Done];
    let (requests, result) = drive(Goal::Delete, b"/c/forkfs/s1", responses);
    assert_eq!(
        requests,
        vec![
            stat("/c/forkfs/s1/merged"),
            stat("/c/forkfs/s1"),
            Request::RemoveDirAll { path: b"/c/forkfs/s1".to_vec() },
        ]
    );
    assert_eq!(result, Some(Ok(false)));
}

#[test]
fn delete_does_not_remove_when_unmount_fails() {
    let mut responses = vec![Response::MountId(9), Response::MountId(5)];
    responses.extend(done(4));
    responses.push(failure(16));
    let (requests, result) = drive(Goal::Delete, b"/c/forkfs/s1", responses);
    assert!(requests.iter().all(|request| !matches!(request, Request::RemoveDirAll { .. })));
    assert_eq!(result.unwrap().unwrap_err().kind, Error::Io);
}

#[test]
fn delete_reports_failed_removal() {
    let responses = vec![Response::MountId(5), Response::MountId(5), failure(13)];
    let (_, result) = drive(Goal::Delete, b"/c/forkfs/s1", responses);
    let report = result.unwrap().unwrap_err();
    assert_eq!(report.kind, Error::Io);
    assert_eq!(report.context[1], b"Failed to delete directory \"/c/forkfs/s1\"".to_vec());
}

#[test]
fn unexpected_response_is_an_io_error() {
    let (_, result) = drive(Goal::Query, b"/c/forkfs/s1", vec![Response::Done]);
    let report = result.unwrap().unwrap_err();
    assert_eq!(report.kind, Error::Io);
    assert_eq!(report.context[0], b"unexpected response".to_vec());
}

#[test]
fn finished_lifecycle_answers_with_an_error() {
    let (lifecycle, _) = Lifecycle::begin(Goal::Query, b"/d".to_vec());
    let (lifecycle, _) = lifecycle.advance(Response::MountId(1));
    let (lifecycle, step) = lifecycle.advance(Response::MountId(1));
    assert_eq!(step, Step::Finish(Ok(false)));
    assert_eq!(lifecycle.goal(), Goal::Query);
    assert_eq!(lifecycle.dir(), b"/d");
    let (_, step) = lifecycle.advance(Response::Done);
    assert!(matches!(step, Step::Finish(Err(_))));
}

#[test]
fn overlay_options_name_root_diff_and_work() {
    let mut dir = b"/c/forkfs/s1".to_vec();
    assert_eq!(
        options_of(&mut dir),
        b"lowerdir=/,upperdir=/c/forkfs/s1/diff,workdir=/c/forkfs/s1/work".to_vec()
    );
    assert_eq!(dir, b"/c/forkfs/s1".to_vec());
}

#[test]
fn paths_with_nul_are_not_mountable() {
    assert!(is_mountable(b"/c/forkfs/s1"));
    assert!(!is_mountable(b"/c/forkfs/s\0"));
    assert!(is_mountable(b""));
}
