use forkfs::error::{Error, Report};
use forkfs::lifecycle::Step;
use forkfs::sessions::{delete, list, maybe_create_session, stop, Batch, Job, Op};
use forkfs::syscall::{Entry, IoFailure, IoResultUtils, Request, Response};

fn failed(code: i32) -> Response {
    Response::Failed(IoFailure { code, description: format!("os error {code}").into_bytes() })
}

fn play(start: (Batch, Step<()>), responses: Vec<Response>) -> (Vec<Request>, Option<Result<(), Report>>) {
    let (mut batch, mut step) = start;
    let mut requests = Vec::new();
    let mut responses = responses.into_iter();
    loop {
        match step {
            Step::Finish(result) => return (requests, Some(result)),
            Step::Perform(request) => {
                requests.push(request);
                match responses.next() {
                    None => return (requests, None),
                    Some(response) => {
                        let (next, then) = batch.advance(response);
                        batch = next;
                        step = then;
                    }
                }
            }
        }
    }
}

fn output(requests: &[Request]) -> String {
    let mut bytes = Vec::new();
    for request in requests {
        if let Request::Write { bytes: piece } = request {
            bytes.extend_from_slice(piece);
        }
    }
    String::from_utf8(bytes).unwrap()
}

fn names(list: &[&str]) -> Response {
    Response::Entries(list.iter().map(|name| Entry::Name(name.as_bytes().to_vec())).collect())
}

fn cache() -> Option<Vec<u8>> {
    Some(b"/c".to_vec())
}

#[test]
fn list_brackets_active_sessions() {
    let responses = vec![
        names(&["s1", "s2"]),
        Response::MountId(9),
        Response::MountId(5),
        Response::Done,
        Response::MountId(5),
        Response::MountId(5),
        Response::Done,
    ];
    let (requests, result) = play(list(cache()), responses);
    assert_eq!(result, Some(Ok(())));
    assert_eq!(output(&requests), "[s1], s2");
    assert_eq!(requests[0], Request::ReadDir { path: b"/c/forkfs".to_vec() });
    assert_eq!(requests[1], Request::MountId { path: b"/c/forkfs/s1/merged".to_vec() });
    assert_eq!(requests[4], Request::MountId { path: b"/c/forkfs/s2/merged".to_vec() });
}

#[test]
fn list_is_stable_for_unchanged_responses() {
    let responses = || {
        vec![
            names(&["b", "a", "c"]),
            Response::MountId(1),
            Response::MountId(1),
            Response::Done,
            Response::MountId(2),
            Response::MountId(1),
            Response::Done,
            Response::MountId(3),
            Response::MountId(1),
            Response::Done,
        ]
    };
    let first = play(list(cache()), responses());
    let second = play(list(cache()), responses());
    assert_eq!(output(&first.0), "b, [a], [c]");
    assert_eq!(first, second);
}

#[test]
fn list_of_missing_directory_prints_nothing() {
    let (requests, result) = play(list(None), vec![failed(2)]);
    assert_eq!(requests, vec![Request::ReadDir { path: b"/tmp/forkfs".to_vec() }]);
    assert_eq!(result, Some(Ok(())));
    assert_eq!(output(&requests), "");
}

#[test]
fn list_of_empty_directory_prints_nothing() {
    let (requests, result) = play(list(cache()), vec![names(&[])]);
    assert_eq!(requests.len(), 1);
    assert_eq!(result, Some(Ok(())));
}

#[test]
fn list_reports_unopenable_directory() {
    let (_, result) = play(list(cache()), vec![failed(13)]);
    let report = result.unwrap().unwrap_err();
    assert_eq!(report.kind, Error::Io);
    assert_eq!(report.context[1], b"Failed to open directory \"/c/forkfs\"".to_vec());
}

#[test]
fn list_reports_unreadable_entry_after_earlier_names() {
    let entries = Response::Entries(vec![
        Entry::Name(b"s1".to_vec()),
        Entry::Unreadable(IoFailure { code: 5, description: b"Input/output error".to_vec() }),
        Entry::Name(b"s3".to_vec()),
    ]);
    let responses = vec![entries, Response::MountId(1), Response::MountId(1), Response::Done];
    let (requests, result) = play(list(cache()), responses);
    assert_eq!(output(&requests), "s1");
    let report = result.unwrap().unwrap_err();
    assert_eq!(report.kind, Error::Io);
    assert_eq!(
        report.context,
        vec![b"Input/output error".to_vec(), b"Failed to read directory \"/c/forkfs\"".to_vec()]
    );
}

#[test]
fn list_reports_failed_write() {
    let responses = vec![names(&["s1"]), Response::MountId(1), Response::MountId(1), failed(32)];
    let (_, result) = play(list(cache()), responses);
    let report = result.unwrap().unwrap_err();
    assert_eq!(report.kind, Error::Io);
    assert_eq!(report.context[1], b"Failed to write to stdout".to_vec());
}

#[test]
fn stop_named_sessions_in_order() {
    let list = vec![b"s2".to_vec(), b"s1".to_vec()];
    let mut responses = vec![Response::MountId(5), Response::MountId(5), Response::MountId(9), Response::MountId(5)];
    responses.extend((0..5).map(|_| Response::Done));
    let (requests, result) = play(stop(Op::List(&list), cache()), responses);
    assert_eq!(result, Some(Ok(())));
    assert_eq!(requests.len(), 9);
    assert_eq!(requests[0], Request::MountId { path: b"/c/forkfs/s2/merged".to_vec() });
    assert_eq!(requests[2], Request::MountId { path: b"/c/forkfs/s1/merged".to_vec() });
    assert_eq!(requests[8], Request::Unmount { target: b"/c/forkfs/s1/merged".to_vec(), detach: false });
}

#[test]
fn stop_twice_makes_the_second_a_no_op() {
    let list = vec![b"s1".to_vec()];
    let mut first = vec![Response::MountId(9), Response::MountId(5)];
    first.extend((0..5).map(|_| Response::Done));
    let (requests, result) = play(stop(Op::List(&list), cache()), first);
    assert_eq!(requests.len(), 7);
    assert_eq!(result, Some(Ok(())));
    let second = vec![Response::MountId(5), Response::MountId(5)];
    let (requests, result) = play(stop(Op::List(&list), cache()), second);
    assert_eq!(requests.len(), 2);
    assert!(requests.iter().all(|request| matches!(request, Request::MountId { .. })));
    assert_eq!(result, Some(Ok(())));
}

#[test]
fn stop_of_missing_name_is_session_not_found() {
    let list = vec![b"nope".to_vec(), b"s1".to_vec()];
    let (requests, result) = play(stop(Op::List(&list), cache()), vec![failed(2)]);
    assert_eq!(requests.len(), 1);
    let report = result.unwrap().unwrap_err();
    assert_eq!(report.kind, Error::SessionNotFound);
    assert_eq!(report.exit_code(), 66);
}

#[test]
fn stop_all_lists_the_directory_first() {
    let responses =
        vec![names(&["s1", "s2"]), Response::MountId(5), Response::MountId(5), Response::MountId(6), Response::MountId(6)];
    let (requests, result) = play(stop(Op::All, cache()), responses);
    assert_eq!(requests.len(), 5);
    assert_eq!(requests[0], Request::ReadDir { path: b"/c/forkfs".to_vec() });
    assert_eq!(result, Some(Ok(())));
}

#[test]
fn stop_of_empty_list_ends_at_once() {
    let list: Vec<Vec<u8>> = Vec::new();
    let (batch, step) = stop(Op::List(&list), cache());
    assert_eq!(step, Step::Finish(Ok(())));
    assert_eq!(batch.job(), Job::Stop);
}

#[test]
fn delete_twice_fails_the_second_time() {
    let list = vec![b"s1".to_vec()];
    let first = vec![Response::MountId(5), Response::MountId(5), Response::Done];
    let (requests, result) = play(delete(Op::List(&list), cache()), first);
    assert_eq!(requests[2], Request::RemoveDirAll { path: b"/c/forkfs/s1".to_vec() });
    assert_eq!(result, Some(Ok(())));
    let (requests, result) = play(delete(Op::List(&list), cache()), vec![failed(2)]);
    assert_eq!(requests.len(), 1);
    let report = result.unwrap().unwrap_err();
    assert_eq!(report.kind, Error::SessionNotFound);
    assert_ne!(report.exit_code(), 0);
}

#[test]
fn delete_all_removes_each_sandbox_directory() {
    let mut responses = vec![names(&["s1", "s2"]), Response::MountId(9), Response::MountId(5)];
    responses.extend((0..6).map(|_| Response::Done));
    responses.extend(vec![Response::MountId(5), Response::MountId(5), Response::Done]);
    let (requests, result) = play(delete(Op::All, cache()), responses);
    assert_eq!(result, Some(Ok(())));
    let removed: Vec<&Request> =
        requests.iter().filter(|request| matches!(request, Request::RemoveDirAll { .. })).collect();
    assert_eq!(
        removed,
        vec![
            &Request::RemoveDirAll { path: b"/c/forkfs/s1".to_vec() },
            &Request::RemoveDirAll { path: b"/c/forkfs/s2".to_vec() },
        ]
    );
}

#[test]
fn batch_stops_at_first_error() {
    let list = vec![b"s1".to_vec(), b"s2".to_vec()];
    let responses = vec![Response::MountId(9), Response::MountId(5), failed(1)];
    let (requests, result) = play(stop(Op::List(&list), cache()), responses);
    assert_eq!(requests.len(), 3);
    assert_eq!(result.unwrap().unwrap_err().kind, Error::Io);
}

#[test]
fn finished_batch_answers_with_an_error() {
    let list: Vec<Vec<u8>> = Vec::new();
    let (batch, _) = delete(Op::List(&list), cache());
    let (_, step) = batch.advance(Response::Done);
    assert!(matches!(step, Step::Finish(Err(_))));
}

#[test]
fn maybe_create_session_begins_with_the_probe() {
    let (lifecycle, request) = maybe_create_session(b"/c/forkfs/default".to_vec());
    assert_eq!(request, Request::MountId { path: b"/c/forkfs/default/merged".to_vec() });
    let (_, step) = lifecycle.advance(failed(2));
    assert_eq!(step, Step::Perform(Request::CreateDirAll { path: b"/c/forkfs/default/diff".to_vec() }));
}

#[test]
fn does_not_exist_recognises_not_found() {
    let missing = IoFailure { code: 2, description: Vec::new() };
    let denied = IoFailure { code: 13, description: Vec::new() };
    assert!((&missing).does_not_exist());
    assert!(!(&denied).does_not_exist());
    assert!((&Response::Failed(missing)).does_not_exist());
    assert!(!(&Response::Failed(denied)).does_not_exist());
    assert!(!(&Response::Done).does_not_exist());
}

#[test]
fn stop_all_of_inactive_sessions_only_probes() {
    let list = vec![b"a".to_vec(), b"b".to_vec(), b"c".to_vec()];
    let responses = vec![
        Response::MountId(4),
        Response::MountId(4),
        Response::MountId(4),
        Response::MountId(4),
        Response::MountId(8),
        Response::MountId(8),
    ];
    let (requests, result) = play(stop(Op::List(&list), cache()), responses);
    assert_eq!(result, Some(Ok(())));
    assert_eq!(
        requests,
        vec![
            Request::MountId { path: b"/c/forkfs/a/merged".to_vec() },
            Request::MountId { path: b"/c/forkfs/a".to_vec() },
            Request::MountId { path: b"/c/forkfs/b/merged".to_vec() },
            Request::MountId { path: b"/c/forkfs/b".to_vec() },
            Request::MountId { path: b"/c/forkfs/c/merged".to_vec() },
            Request::MountId { path: b"/c/forkfs/c".to_vec() },
        ]
    );
}
