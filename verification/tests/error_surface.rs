use forkfs::error::{Error, Report};

#[test]
fn exit_codes_are_nonzero_and_distinct() {
    let kinds = [Error::Io, Error::InvalidArgument, Error::SessionNotFound, Error::SetupRequired];
    let codes: Vec<u8> = kinds.iter().map(|kind| kind.exit_code()).collect();
    assert_eq!(codes, vec![74, 64, 66, 78]);
}

#[test]
fn report_renders_newest_context_first() {
    let report = Report::new(Error::Io)
        .attach(b"No such file or directory (os error 2)".to_vec())
        .attach(b"Failed to stat \"/c/forkfs/s1/merged\"".to_vec())
        .change_kind(Error::SessionNotFound);
    assert_eq!(report.kind, Error::SessionNotFound);
    assert_eq!(report.exit_code(), 66);
    assert_eq!(
        String::from_utf8(report.render()).unwrap(),
        "Session not found.: An IO error occurred.: Failed to stat \"/c/forkfs/s1/merged\": No such file or directory (os error 2)"
    );
}
