use mozprofile::prefreader::parse;
use mozrunner::error::RunnerError;

#[test]
fn io_errors_convert_to_io() {
    let cause = std::io::Error::new(std::io::ErrorKind::NotFound, "gone".to_string());
    let error = RunnerError::from(cause);
    match &error {
        RunnerError::Io(e) => {
            assert_eq!(e.kind(), std::io::ErrorKind::NotFound);
            assert_eq!(e.to_string(), "gone");
        }
        other => panic!("unexpected {:?}", other),
    }
    assert!(!error.is_config());
}

#[test]
fn reader_errors_convert_to_pref_reader() {
    let cause = parse(b"user_pref(").unwrap_err();
    let text = cause.to_string();
    let error = RunnerError::from(cause);
    match &error {
        RunnerError::PrefReader(e) => assert_eq!(e.to_string(), text),
        other => panic!("unexpected {:?}", other),
    }
    assert!(error.is_config());
}

#[test]
fn configuration_failures_are_told_apart() {
    let io = || std::io::Error::new(std::io::ErrorKind::Other, "x".to_string());
    assert!(!RunnerError::Io(io()).is_config());
    assert!(RunnerError::Profile(io()).is_config());
    assert!(RunnerError::PrefWriter(io()).is_config());
}
