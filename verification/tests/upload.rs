use upload_images_to_icp_asset::upload::{build_store_arg, FileMeta, UploadBatch};

fn meta(name: &str, mime: &str) -> FileMeta {
    FileMeta {
        name: name.to_string(),
        mime: mime.to_string(),
    }
}

const ABC_SHA256: [u8; 32] = [
    0xba, 0x78, 0x16, 0xbf, 0x8f, 0x01, 0xcf, 0xea, 0x41, 0x41, 0x40, 0xde, 0x5d, 0xae, 0x22,
    0x23, 0xb0, 0x03, 0x61, 0xa3, 0x96, 0x17, 0x7a, 0x9c, 0xb4, 0x10, 0xff, 0x61, 0xf2, 0x00,
    0x15, 0xad,
];

#[test]
fn store_request_is_content_addressed() {
    let arg = build_store_arg("x.png", "image/png", b"abc".to_vec());
    assert_eq!(arg.key, "/file-x.png");
    assert_eq!(arg.content_type, "image/png");
    assert_eq!(arg.content_encoding, "identity");
    assert_eq!(arg.content, b"abc".to_vec());
    assert_eq!(arg.sha256, Some(ABC_SHA256.to_vec()));
}

#[test]
fn empty_mime_type_is_allowed() {
    let arg = build_store_arg("report.pdf", "", Vec::new());
    assert_eq!(arg.key, "/file-report.pdf");
    assert_eq!(arg.content_type, "");
    assert!(arg.content.is_empty());
    // An empty file still carries a digest: the digest of no bytes.
    let digest = arg.sha256.unwrap();
    assert_eq!(digest.len(), 32);
    assert_ne!(digest, vec![0u8; 32]);
}

#[test]
fn identical_bytes_yield_the_identical_request() {
    let first = build_store_arg("x.png", "image/png", b"abc".to_vec());
    let second = build_store_arg("x.png", "image/png", b"abc".to_vec());
    assert_eq!(first.key, second.key);
    assert_eq!(first.sha256, second.sha256);
    assert_eq!(first.content, second.content);

    // Resubmitting the same request under the same key is accepted again.
    let mut batch = UploadBatch::new(vec![meta("x.png", "image/png"), meta("x.png", "image/png")]);
    batch.file_read(Ok(b"abc".to_vec()));
    batch.store_result(Ok(()));
    batch.file_read(Ok(b"abc".to_vec()));
    batch.store_result(Ok(()));
    assert!(batch.done());
    assert_eq!(batch.keys().as_slice(), ["/file-x.png", "/file-x.png"]);
    assert!(batch.failures().is_empty());
}

#[test]
fn batch_handles_files_in_list_order() {
    let mut batch = UploadBatch::new(vec![
        meta("A.png", "image/png"),
        meta("B.png", "image/png"),
    ]);

    assert!(!batch.done());
    assert_eq!(batch.next_index(), 0);
    assert_eq!(batch.next_file().unwrap().name, "A.png");

    batch.file_read(Ok(vec![1, 2, 3]));
    let request = batch.pending_request().unwrap();
    assert_eq!(request.key, "/file-A.png");
    batch.store_result(Ok(()));

    assert_eq!(batch.next_index(), 1);
    assert_eq!(batch.next_file().unwrap().name, "B.png");
    batch.file_read(Ok(vec![4, 5]));
    assert_eq!(batch.pending_request().unwrap().key, "/file-B.png");
    batch.store_result(Ok(()));

    assert!(batch.done());
    assert_eq!(batch.keys().as_slice(), ["/file-A.png", "/file-B.png"]);
}

#[test]
fn one_unreadable_file_does_not_abort_the_batch() {
    let mut batch = UploadBatch::new(vec![
        meta("a.png", "image/png"),
        meta("b.png", "image/png"),
        meta("c.png", "image/png"),
    ]);

    batch.file_read(Ok(vec![1]));
    batch.store_result(Ok(()));

    // The second file cannot be read: a per-file failure, nothing pending.
    batch.file_read(Err("permission denied".to_string()));
    assert!(batch.pending_request().is_none());

    batch.file_read(Ok(vec![3]));
    batch.store_result(Ok(()));

    assert!(batch.done());
    assert_eq!(batch.keys().as_slice(), ["/file-a.png", "/file-c.png"]);
    assert_eq!(batch.keys().len(), 2);
    let failures = batch.failures();
    assert_eq!(failures.len(), 1);
    assert_eq!(failures[0].file_name, "b.png");
    assert_eq!(failures[0].detail, "permission denied");
}

#[test]
fn a_failed_submission_is_recorded_per_file() {
    let mut batch = UploadBatch::new(vec![
        meta("a.png", "image/png"),
        meta("b.png", "image/png"),
    ]);

    batch.file_read(Ok(vec![1]));
    batch.store_result(Err("request timed out".to_string()));

    batch.file_read(Ok(vec![2]));
    batch.store_result(Ok(()));

    assert!(batch.done());
    assert_eq!(batch.keys().as_slice(), ["/file-b.png"]);
    let (keys, failures) = batch.into_results();
    assert_eq!(keys, vec!["/file-b.png".to_string()]);
    assert_eq!(failures.len(), 1);
    assert_eq!(failures[0].file_name, "a.png");
    assert_eq!(failures[0].detail, "request timed out");
}

#[test]
fn empty_selection_is_an_immediate_empty_success() {
    let batch = UploadBatch::new(Vec::new());
    assert!(batch.done());
    assert!(batch.next_file().is_none());
    assert!(batch.pending_request().is_none());
    assert!(batch.keys().is_empty());
    assert!(batch.failures().is_empty());
}
