use crlf2lf::classify::{classify_path, Classification};
use crlf2lf::orchestrate::{
    outcome_after_write, plan_text_file, FileOutcome, FileStep, RunSummary,
};
use crlf2lf::selector::{process_path, RootOutcome, WalkItem};
use std::io::{Read, Seek, SeekFrom, Write};

fn make_file(dir: &std::path::Path, name: &str, content: &[u8]) -> tempfile::NamedTempFile {
    let mut file = tempfile::Builder::new()
        .prefix(name)
        .rand_bytes(0)
        .tempfile_in(dir)
        .unwrap();
    file.as_file_mut().write_all(content).unwrap();
    file
}

fn read_back(file: &tempfile::NamedTempFile) -> Vec<u8> {
    let mut buf = Vec::new();
    file.reopen().unwrap().read_to_end(&mut buf).unwrap();
    buf
}

/// One turn of the run loop for a single candidate file: classify, read,
/// plan, and write back when asked to. Returns whether the file was
/// classified as text, and its outcome.
fn process_candidate(file: &tempfile::NamedTempFile, dry_run: bool) -> (bool, FileOutcome) {
    let path = file.path().to_str().unwrap().to_string();
    match classify_path(&path) {
        Classification::Binary => (false, FileOutcome::SkippedBinary),
        Classification::Unreadable => (false, FileOutcome::Failed),
        Classification::Text => {
            let content = read_back(file);
            match plan_text_file(&content, dry_run) {
                FileStep::Finished { outcome } => (true, outcome),
                FileStep::WriteBack {
                    converted,
                    bytes_saved,
                } => {
                    let mut handle = file.reopen().unwrap();
                    handle.set_len(0).unwrap();
                    handle.seek(SeekFrom::Start(0)).unwrap();
                    let ok = handle.write_all(&converted).is_ok();
                    (true, outcome_after_write(bytes_saved, ok))
                }
            }
        }
    }
}

#[test]
fn dry_run_reports_savings_and_never_touches_disk() {
    let root = tempfile::tempdir().unwrap();
    let file = make_file(root.path(), "doc.txt", b"Hello\r\nWorld\r\nTest\r\n");
    let root_str = root.path().to_str().unwrap().to_string();

    let items = match process_path(&root_str, false, true) {
        RootOutcome::Listed { items } => items,
        other => panic!("expected a directory listing, got {:?}", other),
    };
    assert_eq!(items.len(), 1);
    match &items[0] {
        WalkItem::Candidate { path, .. } => {
            assert_eq!(path, file.path().to_str().unwrap());
        }
        WalkItem::TraversalError => panic!("unexpected traversal error"),
    }

    let (was_text, outcome) = process_candidate(&file, true);
    assert!(was_text);
    assert_eq!(outcome, FileOutcome::DryRunWouldConvert { bytes_saved: 3 });
    assert_eq!(read_back(&file), b"Hello\r\nWorld\r\nTest\r\n");
}

#[test]
fn conversion_writes_back_and_counts() {
    let root = tempfile::tempdir().unwrap();
    let file = make_file(root.path(), "doc.txt", b"Hello\r\nWorld\nTest\r\n");
    let root_str = root.path().to_str().unwrap().to_string();

    let mut summary = RunSummary::new();
    let items = match process_path(&root_str, false, true) {
        RootOutcome::Listed { items } => items,
        other => panic!("expected a directory listing, got {:?}", other),
    };
    for item in items {
        match item {
            WalkItem::Candidate { .. } => {
                let (was_text, outcome) = process_candidate(&file, false);
                assert_eq!(outcome, FileOutcome::Converted { bytes_saved: 2 });
                summary.record_file(was_text, &outcome);
            }
            WalkItem::TraversalError => summary.record_root_error(),
        }
    }
    assert_eq!(read_back(&file), b"Hello\nWorld\nTest\n");
    assert_eq!(summary.total_text_files, 1);
    assert_eq!(summary.converted_files, 1);
    assert_eq!(summary.errors, 0);
    assert!(!summary.has_errors());
}

#[test]
fn missing_root_does_not_stop_the_run() {
    let root = tempfile::tempdir().unwrap();
    let file = make_file(root.path(), "doc.txt", b"a\r\nb");
    let root_str = root.path().to_str().unwrap().to_string();
    let missing = format!("{}/no-such-dir", root_str);

    let mut summary = RunSummary::new();
    for r in [missing.clone(), root_str.clone()] {
        match process_path(&r, false, true) {
            RootOutcome::RootError => summary.record_root_error(),
            RootOutcome::SingleFile { .. } => panic!("the roots here are directories"),
            RootOutcome::Listed { items } => {
                for item in items {
                    if let WalkItem::Candidate { .. } = item {
                        let (was_text, outcome) = process_candidate(&file, false);
                        summary.record_file(was_text, &outcome);
                    }
                }
            }
        }
    }
    assert_eq!(summary.errors, 1);
    assert_eq!(summary.total_text_files, 1);
    assert_eq!(summary.converted_files, 1);
    assert!(summary.has_errors());
    assert_eq!(read_back(&file), b"a\nb");
}

#[test]
fn binary_files_are_skipped_untouched() {
    let root = tempfile::tempdir().unwrap();
    let blob: Vec<u8> = vec![0u8, 255, 1, 2, 0, 254, 3, 0, 255, 0, 0, 13, 10, 0, 255, 0];
    let file = make_file(root.path(), "blob.bin", &blob);

    let (was_text, outcome) = process_candidate(&file, false);
    assert!(!was_text);
    assert_eq!(outcome, FileOutcome::SkippedBinary);
    assert_eq!(read_back(&file), blob);
}

#[test]
fn unreadable_candidate_classifies_as_unreadable() {
    let root = tempfile::tempdir().unwrap();
    let phantom = format!("{}/ghost.txt", root.path().to_str().unwrap());
    assert_eq!(classify_path(&phantom), Classification::Unreadable);
}
