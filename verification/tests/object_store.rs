//! Sending bodies to the object store and reading its listings.

use lied::storage::{
    absorb_page, absorb_versions, after_delete, get_error, head_error, object_head, part_error,
    s3_error, DirListing, ListingPage, ObjectHead, PageEntry, StorageError, Timestamp, Upload,
    VersionEntry, VersionPage, PART_SIZE,
};
use lied::transfer::{Action, Transfer};

fn body(len: usize) -> Vec<u8> {
    (0..len).map(|i| (i * 31 % 251) as u8).collect()
}

/// Sends `chunks`, and gives the parts with their numbers and how it ended.
fn send(chunks: &[Vec<u8>], limit: u64) -> (Vec<(i32, Vec<u8>)>, Result<u64, StorageError>, bool) {
    let mut parts: Vec<(i32, Vec<u8>)> = vec![];
    let mut aborted = false;
    let mut source = chunks.iter();
    let mut now = (
        Transfer::begin(Ok(true), limit).ok().unwrap(),
        Action::Read,
    );
    loop {
        now = match now.1 {
            Action::Read => match source.next() {
                Some(chunk) => now.0.chunk_read(chunk),
                None => now.0.source_ended(),
            },
            Action::Send(number, part) => {
                parts.push((number, part.to_vec()));
                now.0.part_stored()
            }
            Action::Complete => now.0.completed(),
            Action::Abort => {
                aborted = true;
                now.0.aborted()
            }
            Action::Finished(total) => return (parts, Ok(total), aborted),
            Action::Failed(e) => return (parts, Err(e), aborted),
        };
    }
}

#[test]
fn an_upload_is_cut_into_full_parts_and_a_rest() {
    let whole = body(2 * PART_SIZE + 17);
    let chunks: Vec<Vec<u8>> = whole.chunks(3_000_000).map(|c| c.to_vec()).collect();
    let (parts, ended, aborted) = send(&chunks, 1 << 30);
    assert_eq!(ended, Ok(whole.len() as u64));
    assert!(!aborted);
    assert_eq!(
        parts.iter().map(|(n, p)| (*n, p.len())).collect::<Vec<_>>(),
        vec![(1, PART_SIZE), (2, PART_SIZE), (3, 17)]
    );
    let sent: Vec<u8> = parts.into_iter().flat_map(|(_, p)| p).collect();
    assert_eq!(sent, whole);
}

#[test]
fn one_large_chunk_gives_several_parts() {
    let whole = body(3 * PART_SIZE);
    let (parts, ended, _) = send(&[whole.clone()], 1 << 30);
    assert_eq!(ended, Ok(whole.len() as u64));
    assert_eq!(parts.len(), 3);
    assert!(parts.iter().all(|(_, p)| p.len() == PART_SIZE));
}

#[test]
fn an_empty_body_is_one_empty_part() {
    let (parts, ended, aborted) = send(&[], 10);
    assert_eq!(ended, Ok(0));
    assert_eq!(parts, vec![(1, vec![])]);
    assert!(!aborted);
}

#[test]
fn a_body_over_the_limit_is_called_off() {
    let (parts, ended, aborted) = send(&[body(6), body(5)], 10);
    assert_eq!(ended, Err(StorageError::TooLarge { limit: 10 }));
    assert!(parts.is_empty());
    assert!(aborted);
    let (_, at_the_limit, _) = send(&[body(6), body(4)], 10);
    assert_eq!(at_the_limit, Ok(10));
}

#[test]
fn every_failure_calls_the_upload_off() {
    let start = || Transfer::begin(Ok(true), 100).ok().unwrap();

    let (t, a) = start().source_failed(StorageError::Upstream);
    assert!(matches!(a, Action::Abort));
    assert!(matches!(t.aborted().1, Action::Failed(StorageError::Upstream)));

    let (t, a) = start().source_ended();
    assert!(matches!(a, Action::Send(1, _)));
    let (t, a) = t.part_refused(1, "timeout");
    assert!(matches!(a, Action::Abort));
    match t.aborted().1 {
        Action::Failed(StorageError::S3(m)) => assert_eq!(m, "upload_part 1: timeout"),
        _ => panic!("not failed"),
    }

    let (t, _) = start().source_ended();
    let (t, a) = t.part_stored();
    assert!(matches!(a, Action::Complete));
    let (t, a) = t.completion_refused("gone");
    assert!(matches!(a, Action::Abort));
    match t.aborted().1 {
        Action::Failed(StorageError::S3(m)) => assert_eq!(m, "complete_multipart_upload: gone"),
        _ => panic!("not failed"),
    }
}

#[test]
fn an_upload_that_was_never_opened_has_nothing_to_call_off() {
    match Transfer::begin(Err("denied".to_string()), 100) {
        Err(StorageError::S3(m)) => assert_eq!(m, "create_multipart_upload: denied"),
        _ => panic!("opened"),
    }
    match Transfer::begin(Ok(false), 100) {
        Err(StorageError::S3(m)) => assert_eq!(m, "missing upload_id"),
        _ => panic!("opened"),
    }
}

#[test]
fn an_upload_counts_what_it_received() {
    let mut u = Upload::new(20);
    assert_eq!(u.receive(&body(12)), Ok(()));
    assert_eq!(u.total(), 12);
    assert!(u.next_part().is_none());
    assert_eq!(u.receive(&body(9)), Err(StorageError::TooLarge { limit: 20 }));
    assert_eq!(u.total(), 12);
    let (number, part) = u.finish().unwrap();
    assert_eq!(number, 1);
    assert_eq!(part.to_vec(), body(12));
}

#[test]
fn store_errors_read_well() {
    assert_eq!(
        StorageError::TooLarge { limit: 5 }.message(),
        "upload exceeds the maximum allowed size of 5 bytes"
    );
    assert_eq!(
        StorageError::Upstream.message(),
        "error reading the upload stream"
    );
    assert_eq!(StorageError::NotFound.message(), "object not found");
    assert_eq!(StorageError::InvalidRange.message(), "invalid Range header");
    assert_eq!(s3_error("put", "x").message(), "S3 error: put: x");
    assert_eq!(part_error(3, "x").message(), "S3 error: upload_part 3: x");
    assert_eq!(get_error(true, None, "x"), StorageError::NotFound);
    assert_eq!(
        get_error(false, Some("InvalidRange"), "x"),
        StorageError::InvalidRange
    );
    assert_eq!(
        get_error(false, Some("Other"), "x"),
        StorageError::S3("get_object: x".to_string())
    );
    assert_eq!(head_error(true, "x"), StorageError::NotFound);
    assert_eq!(
        head_error(false, "x"),
        StorageError::S3("head_object: x".to_string())
    );
}

#[test]
fn metadata_below_zero_counts_as_none() {
    assert_eq!(
        object_head(Some(-1), Some((-1, 5))),
        ObjectHead { size: 0, modified: None }
    );
    assert_eq!(
        object_head(Some(9), Some((4, 5))),
        ObjectHead { size: 9, modified: Some(Timestamp { secs: 4, nanos: 5 }) }
    );
    assert_eq!(object_head(None, None), ObjectHead { size: 0, modified: None });
}

#[test]
fn a_listing_grows_page_by_page() {
    let mut listing = DirListing { objects: vec![], dirs: vec![] };
    let entry = |key: Option<&str>, size: i64| PageEntry {
        key: key.map(|k| k.to_string()),
        size: Some(size),
        modified: None,
    };
    let first = ListingPage {
        prefixes: vec![Some("a/b/".to_string()), None],
        contents: vec![entry(Some("a/"), 0), entry(Some("a/x"), 4), entry(None, 1)],
        truncated: Some(true),
        next_token: Some("t".to_string()),
    };
    assert_eq!(absorb_page(&mut listing, "a/", &first).as_deref(), Some("t"));
    let last = ListingPage {
        prefixes: vec![],
        contents: vec![entry(Some("a/y"), 5)],
        truncated: Some(false),
        next_token: Some("u".to_string()),
    };
    assert_eq!(absorb_page(&mut listing, "a/", &last), None);
    let keys: Vec<&str> = listing.objects.iter().map(|o| o.key.as_str()).collect();
    assert_eq!(keys, vec!["a/x", "a/y"]);
    assert_eq!(listing.dirs, vec!["a/b/".to_string()]);
    let tokenless = ListingPage {
        prefixes: vec![],
        contents: vec![],
        truncated: Some(true),
        next_token: None,
    };
    assert_eq!(absorb_page(&mut listing, "a/", &tokenless), None);
}

/// Lists `a/` from the given pages, each a list of keys and one of directories.
fn listing_of(pages: &[(&[&str], &[&str])]) -> (Vec<String>, Vec<String>) {
    let mut listing = DirListing { objects: vec![], dirs: vec![] };
    for (keys, dirs) in pages {
        let page = ListingPage {
            prefixes: dirs.iter().map(|d| Some(d.to_string())).collect(),
            contents: keys
                .iter()
                .map(|k| PageEntry { key: Some(k.to_string()), size: Some(1), modified: None })
                .collect(),
            truncated: Some(false),
            next_token: None,
        };
        assert_eq!(absorb_page(&mut listing, "a/", &page), None);
    }
    (listing.objects.into_iter().map(|o| o.key).collect(), listing.dirs)
}

#[test]
fn a_listing_does_not_depend_on_where_its_pages_are_cut() {
    let whole = listing_of(&[(&["a/", "a/x", "a/y", "a/z"], &["a/b/", "a/c/"])]);
    assert_eq!(whole.0, vec!["a/x", "a/y", "a/z"]);
    assert_eq!(whole.1, vec!["a/b/", "a/c/"]);
    assert_eq!(
        listing_of(&[(&["a/", "a/x"], &["a/b/"]), (&[], &[]), (&["a/y", "a/z"], &["a/c/"])]),
        whole
    );
}

#[test]
fn the_first_failed_deletion_is_the_one_reported() {
    assert_eq!(after_delete(Ok(()), None), Ok(()));
    let failed = after_delete(Ok(()), Some("denied"));
    assert_eq!(failed, Err(StorageError::S3("delete_object: denied".to_string())));
    let later = after_delete(failed, Some("gone"));
    assert_eq!(later, Err(StorageError::S3("delete_object: denied".to_string())));
    let last = after_delete(later, None);
    assert_eq!(last, Err(StorageError::S3("delete_object: denied".to_string())));
}

#[test]
fn every_version_of_an_object_is_found_and_no_other() {
    let entry = |key: &str, version: Option<&str>| VersionEntry {
        key: Some(key.to_string()),
        version: version.map(|v| v.to_string()),
    };
    let mut found: Vec<String> = vec![];
    let first = VersionPage {
        entries: vec![
            entry("a/x", Some("1")),
            entry("a/x.bak", Some("2")),
            entry("a/x", None),
            entry("a/x", Some("3")),
        ],
        truncated: Some(true),
        next_key: Some("a/x".to_string()),
        next_version: Some("3".to_string()),
    };
    assert_eq!(
        absorb_versions(&mut found, "a/x", &first),
        Some(("a/x".to_string(), Some("3".to_string())))
    );
    let last = VersionPage {
        entries: vec![entry("a/x", Some("4"))],
        truncated: Some(false),
        next_key: Some("a/y".to_string()),
        next_version: None,
    };
    assert_eq!(absorb_versions(&mut found, "a/x", &last), None);
    assert_eq!(found, vec!["1".to_string(), "3".to_string(), "4".to_string()]);
}

#[test]
fn a_body_of_whole_parts_has_no_empty_last_part() {
    let (parts, ended, _) = send(&[body(PART_SIZE), body(PART_SIZE)], 1 << 30);
    assert_eq!(ended, Ok(2 * PART_SIZE as u64));
    assert_eq!(parts.iter().map(|(_, p)| p.len()).collect::<Vec<_>>(), vec![PART_SIZE; 2]);
}
