//! What failed uploads are answered with, and file sizes.

use lied::error::AppError;
use lied::files::{
    file_part, storage_error_to_app_error, upload_error_to_app_error, BodyPart, UploadError,
};
use lied::size::human_size;
use lied::storage::StorageError;

fn status_of(err: UploadError) -> u16 {
    upload_error_to_app_error(err).status()
}

#[test]
fn human_size_scales_units() {
    assert_eq!(human_size(0), "0 B");
    assert_eq!(human_size(512), "512 B");
    assert_eq!(human_size(1024), "1.0 KB");
    assert_eq!(human_size(1536), "1.5 KB");
    assert_eq!(human_size(5 * 1024 * 1024), "5.0 MB");
    assert_eq!(human_size(3 * 1024 * 1024 * 1024), "3.0 GB");
}

#[test]
fn a_bad_upload_blames_the_client_but_a_corrupt_stored_row_does_not() {
    // The client sent a media type we don't store: their problem, 415.
    assert_eq!(
        status_of(UploadError::UnsupportedMime("text/plain".to_string())),
        415
    );
    // The *stored* row carries a mime that isn't in the lookup table — it
    // passed that same table on write, so this is our data bug. Reporting
    // 415 would blame the caller for a media type they never sent.
    assert_eq!(
        status_of(UploadError::StoredMimeUnknown(
            "application/whatever".to_string()
        )),
        500
    );
}

#[test]
fn the_remaining_store_failures_keep_their_documented_statuses() {
    assert_eq!(
        status_of(UploadError::EmptyName),
        400,
        "a nameless part is a malformed request"
    );
    assert_eq!(
        status_of(UploadError::FormatMismatch {
            expected: "pdf (.pdf)".to_string()
        }),
        409
    );
    assert_eq!(status_of(UploadError::Duplicate), 409);
    assert_eq!(status_of(UploadError::NotFound), 404);
    assert_eq!(status_of(UploadError::ReplaceTargetGone), 404);
    assert_eq!(status_of(UploadError::TooLarge { limit: 1024 }), 413);
    assert_eq!(
        status_of(UploadError::Storage("connection reset".to_string())),
        500
    );
}

#[test]
fn a_database_failure_is_ours() {
    assert_eq!(status_of(UploadError::Db), 500);
}

#[test]
fn store_failures_map_to_statuses() {
    assert!(matches!(
        storage_error_to_app_error(StorageError::NotFound),
        AppError::NotFound
    ));
    assert_eq!(storage_error_to_app_error(StorageError::InvalidRange).status(), 416);
    assert_eq!(storage_error_to_app_error(StorageError::Upstream).status(), 500);
    assert_eq!(
        storage_error_to_app_error(StorageError::S3("get: x".to_string())).status(),
        500
    );
    assert_eq!(
        storage_error_to_app_error(StorageError::TooLarge { limit: 5 }).status(),
        413
    );
}

#[test]
fn only_a_part_with_a_file_name_is_a_file() {
    let named = BodyPart {
        file_name: Some("score.pdf".to_string()),
        content_type: Some("application/pdf".to_string()),
    };
    assert_eq!(
        file_part(&named),
        Some(("score.pdf".to_string(), "application/pdf".to_string()))
    );
    let nameless = BodyPart {
        file_name: None,
        content_type: Some("application/pdf".to_string()),
    };
    assert_eq!(file_part(&nameless), None);
}

/// The same figure by way of floating point.
fn reference_size(bytes: u64) -> String {
    let units = ["B", "KB", "MB", "GB"];
    let mut size = bytes as f64;
    let mut unit = 0;
    while size >= 1024.0 && unit < units.len() - 1 {
        size /= 1024.0;
        unit += 1;
    }
    if unit == 0 {
        format!("{bytes} {}", units[unit])
    } else {
        format!("{size:.1} {}", units[unit])
    }
}

#[test]
fn sizes_are_rounded_as_floating_point_would() {
    let mut cases: Vec<u64> = vec![1023, 1024, 1075, 1076, 1126, 1127, 1433, 1434, u64::MAX];
    for shift in 10..64u32 {
        let base = 1u64 << shift;
        for delta in [0u64, 1, 51, 52, 102, 103, 153, 154, 307, 512, 717] {
            cases.push(base + delta);
            cases.push(base - delta);
            cases.push(base + (base >> 10) * delta);
            cases.push(base + base / 20);
            cases.push(base + base / 20 * 3);
        }
    }
    for k in 0..4000u64 {
        cases.push(k * 13);
        cases.push((1u64 << 53) + k);
        cases.push((1u64 << 63) + k * 977);
    }
    for bytes in cases {
        assert_eq!(human_size(bytes), reference_size(bytes), "{bytes} bytes");
    }
}
