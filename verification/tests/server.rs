use ocloud::cdn_model;
use ocloud::controller::{found_media, MediaCheckinResult, MediaDeleteResult, MediaInsert};
use ocloud::error::{ClientError, Error};
use ocloud::model;
use ocloud::routes::{media_headers, settle_upload, temp_file_name, StoredUpload, UploadProgress};

fn cdn_media(id: i64, file_hash: &str) -> cdn_model::Media {
    cdn_model::Media {
        id,
        uploaded_time: 100,
        accessed_time: 100,
        expiring_time: 0,
        file_size: 3,
        file_name: "a.txt".to_string(),
        file_hash: file_hash.to_string(),
    }
}

fn answer(e: Error) -> (u16, ClientError) {
    e.to_status_and_client_error()
}

#[test]
fn status_and_client_error_for_each_error() {
    assert_eq!(answer(Error::NoAuthError), (403, ClientError::NO_AUTH));
    let db = ClientError::INTERNAL_ERROR { why: "Internal database error.".to_string() };
    assert_eq!(answer(Error::DatabaseConnectionError), (500, db.clone()));
    assert_eq!(answer(Error::DatabaseQueryError), (500, db));
    assert_eq!(
        answer(Error::AxumError { why: "boom".to_string() }),
        (500, ClientError::INTERNAL_ERROR { why: "boom".to_string() })
    );
    assert_eq!(
        answer(Error::IOError { why: "disk".to_string() }),
        (500, ClientError::INTERNAL_ERROR { why: "disk".to_string() })
    );
    assert_eq!(
        answer(Error::Error { why: "bad".to_string() }),
        (400, ClientError::BAD_REQUEST { why: "bad".to_string() })
    );
    assert_eq!(
        answer(Error::NoMediaFound),
        (400, ClientError::BAD_REQUEST { why: "No file found.".to_string() })
    );
}

#[test]
fn error_messages() {
    assert_eq!(Error::no_content(), Error::Error { why: "No content uploaded".to_string() });
    assert_eq!(Error::multipart("eof"), Error::AxumError { why: "Multipart error: eof".to_string() });
    assert_eq!(Error::chunk("reset"), Error::AxumError { why: "Chunk error: reset".to_string() });
}

#[test]
fn insert_row_from_upload() {
    let info = cdn_model::MediaUploadInfo {
        file_name: "a.txt".to_string(),
        file_size: 9,
        file_hash: "AB".to_string(),
        upload_start_time: 77,
    };
    let row = MediaInsert::from_upload(&info);
    assert_eq!(
        row,
        MediaInsert {
            uploaded_time: 77,
            accessed_time: 77,
            expiring_time: 0,
            file_size: 9,
            file_name: "a.txt".to_string(),
            file_hash: "AB".to_string(),
        }
    );
}

#[test]
fn checkin_duplicate_flag() {
    let r = MediaCheckinResult::from_lookup(Some(cdn_media(1, "AB")), cdn_media(2, "AB"));
    assert!(r.is_duplicate);
    assert_eq!(r.media.id, 2);
    let r = MediaCheckinResult::from_lookup(None, cdn_media(3, "CD"));
    assert!(!r.is_duplicate);
    assert_eq!(r.media, cdn_media(3, "CD"));
}

#[test]
fn lookup_found_or_not() {
    assert_eq!(found_media(Some(cdn_media(4, "EF"))), Ok(cdn_media(4, "EF")));
    assert_eq!(found_media(None), Err(Error::NoMediaFound));
}

#[test]
fn delete_counts_remaining_references() {
    let r = MediaDeleteResult::from_deleted_row(cdn_media(4, "EF"), 1);
    assert_eq!(r.remaining_references, 0);
    let r = MediaDeleteResult::from_deleted_row(cdn_media(4, "EF"), 3);
    assert_eq!(r.remaining_references, 2);
    assert_eq!(r.deleted, cdn_media(4, "EF"));
}

#[test]
fn upload_hash_of_abc() {
    let mut p = UploadProgress::new();
    p.add_chunk(b"ab");
    p.add_chunk(b"c");
    assert_eq!(p.file_size(), 3);
    let info = p.finish("abc.txt".to_string(), 42);
    assert_eq!(info.file_name, "abc.txt");
    assert_eq!(info.file_size, 3);
    assert_eq!(info.upload_start_time, 42);
    assert_eq!(info.file_hash, "BA7816BF8F01CFEA414140DE5DAE2223B00361A396177A9CB410FF61F20015AD");
}

#[test]
fn upload_hash_of_nothing() {
    let info = UploadProgress::new().finish("empty".to_string(), 0);
    assert_eq!(info.file_size, 0);
    assert_eq!(info.file_hash, "E3B0C44298FC1C149AFBF4C8996FB92427AE41E4649B934CA495991B7852B855");
}

#[test]
fn upload_hash_ignores_chunking() {
    let data: Vec<u8> = (0..=255u8).cycle().take(1000).collect();
    let mut whole = UploadProgress::new();
    whole.add_chunk(&data);
    let mut pieces = UploadProgress::new();
    for piece in data.chunks(7) {
        pieces.add_chunk(piece);
    }
    let a = whole.finish("x".to_string(), 1);
    let b = pieces.finish("x".to_string(), 1);
    assert_eq!(a, b);
    assert_eq!(a.file_size, 1000);
    assert_eq!(a.file_hash.len(), 64);
    assert!(a.file_hash.chars().all(|c| c.is_ascii_digit() || ('A'..='F').contains(&c)));
}

#[test]
fn temp_file_name_format() {
    assert_eq!(temp_file_name(1700000000123, "cat.png"), "./tmp_1700000000123_cat.png");
}

#[test]
fn settle_duplicate_and_new_upload() {
    let m = model::Media {
        id: 9,
        uploaded_time: 100,
        accessed_time: 100,
        expiring_time: 0,
        file_size: 1,
        file_name: "a.txt".to_string(),
        file_hash: "AB".to_string(),
    };
    assert_eq!(settle_upload(200, &m), StoredUpload::DiscardDuplicate);
    assert_eq!(settle_upload(100, &m), StoredUpload::KeepAs { file_name: "9_AB".to_string() });
}

#[test]
fn headers_inline_media() {
    let h = media_headers("movie.mp4").unwrap();
    assert_eq!(h.content_type, "video/mp4");
    assert_eq!(h.content_disposition, None);
    let h = media_headers("photo.png").unwrap();
    assert_eq!(h.content_type, "image/png");
    assert_eq!(h.content_disposition, None);
    let h = media_headers("song.mp3").unwrap();
    assert_eq!(h.content_type, "audio/mpeg");
    assert_eq!(h.content_disposition, None);
}

#[test]
fn headers_attachment() {
    let h = media_headers("notes.txt").unwrap();
    assert_eq!(h.content_type, "text/plain");
    assert_eq!(h.content_disposition, Some("attachment; filename=\"notes.txt\"".to_string()));
    let h = media_headers("README").unwrap();
    assert_eq!(h.content_type, "application/octet-stream");
    assert_eq!(h.content_disposition, Some("attachment; filename=\"README\"".to_string()));
    let h = media_headers("café.bin").unwrap();
    assert_eq!(h.content_disposition, Some("attachment; filename=\"café.bin\"".to_string()));
}

#[test]
fn headers_invalid_disposition() {
    assert_eq!(media_headers("bad\nname.txt"), Err(Error::Error { why: "Parse error".to_string() }));
    // Served inline, the name never reaches a header.
    assert!(media_headers("bad\nname.png").is_ok());
}
