use crlf2lf::orchestrate::{
    outcome_after_write, plan_text_file, FileOutcome, FileStep, RunSummary,
};

#[test]
fn dry_run_plan_reports_savings_and_asks_for_no_write() {
    match plan_text_file(b"Hello\r\nWorld\r\nTest\r\n", true) {
        FileStep::Finished { outcome } => {
            assert_eq!(outcome, FileOutcome::DryRunWouldConvert { bytes_saved: 3 });
        }
        FileStep::WriteBack { .. } => panic!("a dry run must not ask for a write"),
    }
}

#[test]
fn plan_requests_write_back_with_transformed_bytes() {
    match plan_text_file(b"Hello\r\nWorld\r\nTest\r\n", false) {
        FileStep::WriteBack {
            converted,
            bytes_saved,
        } => {
            assert_eq!(converted, b"Hello\nWorld\nTest\n");
            assert_eq!(bytes_saved, 3);
        }
        FileStep::Finished { .. } => panic!("content with CRLF pairs must be converted"),
    }
}

#[test]
fn plan_skips_content_without_crlf() {
    match plan_text_file(b"Hello\nWorld\n", false) {
        FileStep::Finished { outcome } => assert_eq!(outcome, FileOutcome::SkippedNoCrlf),
        FileStep::WriteBack { .. } => panic!("there is nothing to convert"),
    }
}

#[test]
fn write_result_turns_into_the_file_outcome() {
    assert_eq!(
        outcome_after_write(7, true),
        FileOutcome::Converted { bytes_saved: 7 }
    );
    assert_eq!(outcome_after_write(7, false), FileOutcome::Failed);
}

#[test]
fn summary_folds_outcomes_and_root_errors() {
    let mut summary = RunSummary::new();
    summary.record_file(false, &FileOutcome::SkippedBinary);
    summary.record_file(true, &FileOutcome::SkippedNoCrlf);
    summary.record_file(true, &FileOutcome::Converted { bytes_saved: 3 });
    summary.record_file(false, &FileOutcome::Failed);
    summary.record_root_error();
    assert_eq!(summary.total_text_files, 2);
    assert_eq!(summary.converted_files, 1);
    assert_eq!(summary.errors, 2);
    assert!(summary.has_errors());

    let fresh = RunSummary::new();
    assert!(!fresh.has_errors());
}
