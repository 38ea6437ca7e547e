use sonify::errors::RunError;

#[test]
fn only_configuration_errors_abort_the_run() {
    assert!(RunError::InvalidConfiguration.is_run_fatal());
    assert!(!RunError::Enumeration.is_run_fatal());
    assert!(!RunError::Read.is_run_fatal());
    assert!(!RunError::SinkCreation.is_run_fatal());
    assert!(!RunError::SinkWrite.is_run_fatal());
    assert!(!RunError::Finalize.is_run_fatal());
}
