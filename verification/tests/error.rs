use jormungandr::error::{Error, ErrorKind};

fn all_kinds() -> Vec<ErrorKind> {
    vec![
        ErrorKind::Logging,
        ErrorKind::Configuration,
        ErrorKind::Diagnostic,
        ErrorKind::Storage,
        ErrorKind::Block0,
        ErrorKind::Blockchain,
        ErrorKind::NodeSecrets,
        ErrorKind::ExplorerBootstrap,
        ErrorKind::Interrupted,
        ErrorKind::ServiceTerminated,
    ]
}

#[test]
fn exit_codes_are_nonzero_and_distinct() {
    let kinds = all_kinds();
    for (i, a) in kinds.iter().enumerate() {
        assert_ne!(a.code(), 0);
        for b in kinds.iter().skip(i + 1) {
            assert_ne!(a.code(), b.code());
        }
    }
    assert_eq!(ErrorKind::Configuration.code(), 2);
    assert_eq!(ErrorKind::ServiceTerminated.code(), 10);
}

#[test]
fn error_without_causes_reports_one_line() {
    let e = Error::new(ErrorKind::Storage, "cannot open the storage");
    assert_eq!(e.kind, ErrorKind::Storage);
    assert_eq!(e.code(), 4);
    assert!(e.causes.is_empty());
    assert_eq!(e.report_lines(), vec!["cannot open the storage".to_string()]);
}

#[test]
fn causes_are_reported_behind_their_prefix() {
    let e = Error::new(ErrorKind::Block0, "cannot read block 0")
        .caused_by("file is truncated")
        .caused_by("unexpected end of file");
    assert_eq!(
        e.report_lines(),
        vec![
            "cannot read block 0".to_string(),
            " |-> file is truncated".to_string(),
            " |-> unexpected end of file".to_string(),
        ]
    );
}

#[test]
fn service_error_keeps_the_cause_chain() {
    let inner = Error::new(ErrorKind::NodeSecrets, "leadership failed").caused_by("no key");
    let outer = Error::service_terminated("A service has terminated with an error", inner);
    assert_eq!(outer.kind, ErrorKind::ServiceTerminated);
    assert_eq!(outer.code(), 10);
    assert_eq!(outer.message, "A service has terminated with an error");
    assert_eq!(outer.causes, vec!["leadership failed".to_string(), "no key".to_string()]);
    assert_eq!(
        outer.report_lines(),
        vec![
            "A service has terminated with an error".to_string(),
            " |-> leadership failed".to_string(),
            " |-> no key".to_string(),
        ]
    );
}
