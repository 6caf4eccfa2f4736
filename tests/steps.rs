use aquila::error::StorageError;
use aquila::fs::{FileSystemStorage, FsWriteStep};
use aquila::pipeline::{manifest_versions, rollback_result};
use aquila::steps::{
    blob_write_after_probe, blob_write_after_put, completion_result, probe_result, read_result,
    BlobWriteStep, Failure, Fetched, Probe,
};

#[test]
fn present_blob_is_never_rewritten() {
    assert!(matches!(blob_write_after_probe(Probe::Present), BlobWriteStep::Finish(Ok(false))));
    assert!(matches!(blob_write_after_probe(Probe::Absent), BlobWriteStep::Write));
    match blob_write_after_probe(Probe::Failed(Failure::Service("denied".to_string()))) {
        BlobWriteStep::Finish(Err(StorageError::Generic(m))) => assert_eq!(m, "denied"),
        _ => panic!("expected a backend error"),
    }
}

#[test]
fn put_outcomes() {
    assert!(matches!(blob_write_after_put(Ok(())), Ok(true)));
    assert!(matches!(blob_write_after_put(Err(Failure::Io("disk".to_string()))), Err(StorageError::Io(m)) if m == "disk"));
    assert!(matches!(blob_write_after_put(Err(Failure::Service("net".to_string()))), Err(StorageError::Generic(m)) if m == "net"));
}

#[test]
fn probe_answers() {
    assert!(matches!(probe_result(Probe::Present), Ok(true)));
    assert!(matches!(probe_result(Probe::Absent), Ok(false)));
    assert!(matches!(probe_result(Probe::Failed(Failure::Service("x".to_string()))), Err(StorageError::Generic(_))));
}

#[test]
fn read_outcomes_keep_not_found_apart() {
    assert_eq!(read_result("p", Fetched::Found(vec![1, 2])).ok(), Some(vec![1, 2]));
    assert!(matches!(read_result("p", Fetched::Missing), Err(StorageError::NotFound(p)) if p == "p"));
    assert!(matches!(read_result("p", Fetched::Failed(Failure::Service("503".to_string()))), Err(StorageError::Generic(m)) if m == "503"));
    assert!(matches!(read_result("p", Fetched::Failed(Failure::Io("eio".to_string()))), Err(StorageError::Io(_))));
}

#[test]
fn completions() {
    assert!(completion_result(Ok(())).is_ok());
    assert!(matches!(completion_result(Err(Failure::Service("gone".to_string()))), Err(StorageError::Generic(m)) if m == "gone"));
}

#[test]
fn filesystem_write_plan() {
    let s = FileSystemStorage::new("./data".to_string());
    assert!(matches!(s.write_plan("abc", true), FsWriteStep::Finish(Ok(false))));
    match s.write_plan("abc", false) {
        FsWriteStep::Stage { target, staging } => {
            assert_eq!(target, "./data/abc");
            assert_eq!(staging, "./data/abc.tmp");
        }
        _ => panic!("expected a staged write"),
    }
    let (target, staging) = s.staged_paths("manifests/2024.1");
    assert_eq!(target, "./data/manifests/2024.1");
    assert_eq!(staging, "./data/manifests/2024.1.tmp");
}

#[test]
fn rollback_reports_integrity_error_whatever_the_deletion_did() {
    for deleted in [Ok(()), Err(StorageError::Generic("delete failed".to_string()))] {
        match rollback_result("aa".to_string(), "bb".to_string(), deleted) {
            Err(StorageError::IntegrityMismatch { expected, computed }) => {
                assert_eq!(expected, "aa");
                assert_eq!(computed, "bb");
            }
            _ => panic!("expected an integrity error"),
        }
    }
}

#[test]
fn publication_targets() {
    assert_eq!(manifest_versions("v1", true), vec!["v1".to_string(), "latest".to_string()]);
    assert_eq!(manifest_versions("v1", false), vec!["v1".to_string()]);
}
