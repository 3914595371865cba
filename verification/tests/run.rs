use forkfs::error::{Error, Report};
use forkfs::lifecycle::Step;
use forkfs::privilege::{
    has_required_capabilities, decide, setup_instructions, validate_permissions, Check, Ruling,
};
use forkfs::run::{downgrade, parse_uid, run, Environment, Run};
use forkfs::syscall::{IoFailure, Request, Response};

fn failed(code: i32) -> Response {
    Response::Failed(IoFailure { code, description: format!("os error {code}").into_bytes() })
}

fn play(start: (Run, Step<()>), responses: Vec<Response>) -> (Vec<Request>, Option<Result<(), Report>>) {
    let (mut machine, mut step) = start;
    let mut requests = Vec::new();
    let mut responses = responses.into_iter();
    loop {
        match step {
            Step::Finish(result) => return (requests, Some(result)),
            Step::Perform(request) => {
                requests.push(request);
                match responses.next() {
                    None => return (requests, None),
                    Some(response) => {
                        let (next, then) = machine.advance(response);
                        machine = next;
                        step = then;
                    }
                }
            }
        }
    }
}

fn environment(uid: u32, sudo_uid: Option<&str>) -> Environment {
    Environment { uid, cache_dir: Some(b"/c".to_vec()), sudo_uid: sudo_uid.map(|text| text.as_bytes().to_vec()) }
}

fn command() -> Vec<Vec<u8>> {
    vec![b"/bin/true".to_vec(), b"-x".to_vec()]
}

#[test]
fn parse_uid_reads_decimal_digits() {
    assert_eq!(parse_uid(b"1000"), Some(1000));
    assert_eq!(parse_uid(b"0"), Some(0));
    assert_eq!(parse_uid(b"+42"), Some(42));
    assert_eq!(parse_uid(b"000000000000000000000007"), Some(7));
    assert_eq!(parse_uid(b"4294967295"), Some(u32::MAX));
}

#[test]
fn parse_uid_rejects_what_is_no_uid() {
    for text in [&b""[..], b"+", b"-1", b"12a", b" 12", b"12 ", b"4294967296", b"99999999999999999999", b"++1", b"\xff"] {
        assert_eq!(parse_uid(text), None);
    }
}

#[test]
fn parse_uid_agrees_with_std() {
    for text in ["0", "7", "+7", "-7", "", "+", "65535", "4294967295", "4294967296", "0x10", "1_000", "١٢"] {
        assert_eq!(parse_uid(text.as_bytes()), text.parse::<u32>().ok());
    }
}

#[test]
fn downgrade_keeps_uid_of_plain_user() {
    assert_eq!(downgrade(1000, Some(b"0"), false), Some(1000));
    assert_eq!(downgrade(1000, None, false), Some(1000));
}

#[test]
fn downgrade_of_root_follows_sudo_uid() {
    assert_eq!(downgrade(0, Some(b"1000"), false), Some(1000));
    assert_eq!(downgrade(0, Some(b"junk"), false), None);
    assert_eq!(downgrade(0, None, false), None);
}

#[test]
fn downgrade_is_off_when_staying_root() {
    assert_eq!(downgrade(0, Some(b"1000"), true), None);
    assert_eq!(downgrade(1000, None, true), None);
}

#[test]
fn root_passes_without_a_check() {
    assert_eq!(validate_permissions(0), Ruling::Granted);
    assert_eq!(validate_permissions(1000), Ruling::Continue(Check::BecomeRoot));
}

#[test]
fn becoming_root_grants() {
    assert_eq!(decide(Check::BecomeRoot, Response::Done), Ruling::Granted);
}

#[test]
fn becoming_root_without_permission_asks_for_capabilities() {
    assert_eq!(decide(Check::BecomeRoot, failed(1)), Ruling::Continue(Check::Capabilities));
}

#[test]
fn becoming_root_failing_otherwise_is_io() {
    match decide(Check::BecomeRoot, failed(22)) {
        Ruling::Refused(report) => {
            assert_eq!(report.kind, Error::Io);
            assert_eq!(report.context[1], b"Failed to become root".to_vec());
        }
        other => panic!("{other:?}"),
    }
}

#[test]
fn capabilities_must_hold_all_four() {
    let all = (1u64 << 0) | (1 << 1) | (1 << 18) | (1 << 21);
    assert!(has_required_capabilities(all));
    assert!(has_required_capabilities(u64::MAX));
    for bit in [0, 1, 18, 21] {
        assert!(!has_required_capabilities(all & !(1u64 << bit)));
    }
    assert!(!has_required_capabilities(0));
    assert_eq!(decide(Check::Capabilities, Response::Capabilities(all)), Ruling::Granted);
    assert_eq!(
        decide(Check::Capabilities, Response::Capabilities(all & !2)),
        Ruling::Continue(Check::ExecutablePath)
    );
}

#[test]
fn unreadable_capabilities_are_io() {
    match decide(Check::Capabilities, failed(1)) {
        Ruling::Refused(report) => {
            assert_eq!(report.kind, Error::Io);
            assert_eq!(report.context[1], b"Failed to retrieve capabilities".to_vec());
        }
        other => panic!("{other:?}"),
    }
}

#[test]
fn setup_message_names_the_executable() {
    match decide(Check::ExecutablePath, Response::Path(b"/usr/bin/forkfs".to_vec())) {
        Ruling::Refused(report) => {
            assert_eq!(report.kind, Error::SetupRequired);
            assert_eq!(report.exit_code(), 78);
            let text = String::from_utf8(report.context[0].clone()).unwrap();
            assert!(text.starts_with("Welcome to ForkFS!"));
            assert!(text.contains("cap_setfcap+ep /usr/bin/forkfs\n"));
            assert!(text.contains("$ sudo chown root /usr/bin/forkfs; sudo chmod u+s /usr/bin/forkfs\n"));
            assert!(text.contains("$ sudo -E forkfs ..."));
            assert_eq!(text.matches("/usr/bin/forkfs").count(), 3);
        }
        other => panic!("{other:?}"),
    }
}

#[test]
fn setup_message_falls_back_when_executable_is_unknown() {
    match decide(Check::ExecutablePath, failed(2)) {
        Ruling::Refused(report) => {
            assert_eq!(report.kind, Error::SetupRequired);
            assert_eq!(report.context[0], setup_instructions(b"<path-to-forkfs>"));
        }
        other => panic!("{other:?}"),
    }
}

#[test]
fn setup_message_lists_every_capability() {
    let text = String::from_utf8(setup_instructions(b"forkfs")).unwrap();
    for capability in [
        "cap_chown",
        "cap_sys_chroot",
        "cap_sys_admin",
        "cap_dac_override",
        "cap_fowner",
        "cap_setpcap",
        "cap_mknod",
        "cap_lease",
        "cap_setfcap",
    ] {
        assert!(text.contains(capability));
    }
}

#[test]
fn run_as_root_in_fresh_sandbox() {
    let mut responses = vec![failed(2)];
    responses.extend((0..12).map(|_| Response::Done));
    responses.extend(vec![Response::Path(b"/home/u/project".to_vec()), Response::Done, Response::Done]);
    let (requests, result) = play(run(b"s1", &command(), false, environment(0, Some("1000"))), responses);
    assert_eq!(result, None);
    assert_eq!(requests.len(), 17);
    assert_eq!(requests[0], Request::MountId { path: b"/c/forkfs/s1/merged".to_vec() });
    assert_eq!(
        requests[13..].to_vec(),
        vec![
            Request::CurrentDir,
            Request::ChangeRoot { path: b"/c/forkfs/s1/merged".to_vec() },
            Request::ChangeDir { path: b"/home/u/project".to_vec() },
            Request::Exec { command: command(), uid: Some(1000) },
        ]
    );
}

#[test]
fn run_twice_does_no_mounting_the_second_time() {
    let responses = vec![
        Response::MountId(9),
        Response::MountId(5),
        Response::Path(b"/".to_vec()),
        Response::Done,
        Response::Done,
    ];
    let (requests, result) = play(run(b"s1", &command(), true, environment(0, None)), responses);
    assert_eq!(result, None);
    assert_eq!(
        requests,
        vec![
            Request::MountId { path: b"/c/forkfs/s1/merged".to_vec() },
            Request::MountId { path: b"/c/forkfs/s1".to_vec() },
            Request::CurrentDir,
            Request::ChangeRoot { path: b"/c/forkfs/s1/merged".to_vec() },
            Request::ChangeDir { path: b"/".to_vec() },
            Request::Exec { command: command(), uid: None },
        ]
    );
}

#[test]
fn run_without_privileges_requires_setup() {
    let responses = vec![failed(1), Response::Capabilities(0), Response::Path(b"/usr/bin/forkfs".to_vec())];
    let (requests, result) = play(run(b"s1", &command(), false, environment(1000, None)), responses);
    assert_eq!(requests, vec![Request::BecomeRoot, Request::Capabilities, Request::ExecutablePath]);
    assert_eq!(result.unwrap().unwrap_err().kind, Error::SetupRequired);
}

#[test]
fn run_with_capabilities_keeps_the_users_uid() {
    let responses = vec![
        failed(1),
        Response::Capabilities(u64::MAX),
        Response::MountId(9),
        Response::MountId(5),
        Response::Path(b"/w".to_vec()),
        Response::Done,
        Response::Done,
    ];
    let (requests, _) = play(run(b"default", &command(), false, environment(1000, None)), responses);
    assert_eq!(requests[2], Request::MountId { path: b"/c/forkfs/default/merged".to_vec() });
    assert_eq!(requests.last(), Some(&Request::Exec { command: command(), uid: Some(1000) }));
}

#[test]
fn run_reports_failed_exec_with_the_command_line() {
    let responses = vec![
        Response::MountId(9),
        Response::MountId(5),
        Response::Path(b"/".to_vec()),
        Response::Done,
        Response::Done,
        failed(2),
    ];
    let (_, result) = play(run(b"s1", &command(), false, environment(0, None)), responses);
    let report = result.unwrap().unwrap_err();
    assert_eq!(report.kind, Error::Io);
    assert_eq!(report.exit_code(), 74);
    assert_eq!(report.context[1], b"Failed to exec [\"/bin/true\", \"-x\"]".to_vec());
}

#[test]
fn run_reports_failures_on_the_way_in() {
    let probe = || vec![Response::MountId(9), Response::MountId(5)];
    let lines: [(Vec<Response>, &str); 3] = [
        (vec![failed(2)], "Failed to get current directory"),
        (vec![Response::Path(b"/w".to_vec()), failed(1)], "Failed to change root \"/c/forkfs/s1/merged\""),
        (
            vec![Response::Path(b"/w".to_vec()), Response::Done, failed(2)],
            "Failed to change current directory \"/w\"",
        ),
    ];
    for (tail, line) in lines {
        let mut responses = probe();
        responses.extend(tail);
        let (_, result) = play(run(b"s1", &command(), false, environment(0, None)), responses);
        let report = result.unwrap().unwrap_err();
        assert_eq!(report.kind, Error::Io);
        assert_eq!(report.context[1], line.as_bytes().to_vec());
    }
}

#[test]
fn run_ends_well_when_the_command_is_reported_done() {
    let responses = vec![
        Response::MountId(9),
        Response::MountId(5),
        Response::Path(b"/".to_vec()),
        Response::Done,
        Response::Done,
        Response::Done,
    ];
    let (_, result) = play(run(b"s1", &command(), false, environment(0, None)), responses);
    assert_eq!(result, Some(Ok(())));
}

#[test]
fn run_stops_when_activation_fails() {
    let responses = vec![failed(2), failed(13)];
    let (requests, result) = play(run(b"s1", &command(), false, environment(0, None)), responses);
    assert_eq!(requests.len(), 2);
    assert_eq!(result.unwrap().unwrap_err().kind, Error::Io);
}
