use ocloud::cdn_model::Media;
use ocloud::cli::{check_upload_status, Config, UploadError};

#[test]
fn post_url_and_link() {
    let c = Config { cloud_url: "https://cdn.example/".to_string() };
    assert_eq!(c.media_post_url(), "https://cdn.example/media");
    assert_eq!(c.media_link("/a.txt?id=1&checksum=AB"), "https://cdn.example/media//a.txt?id=1&checksum=AB");
}

#[test]
fn link_to_uploaded_media() {
    let c = Config { cloud_url: "http://h/".to_string() };
    let m = Media {
        id: 31,
        uploaded_time: 0,
        accessed_time: 0,
        expiring_time: 0,
        file_size: 0,
        file_name: "x.png".to_string(),
        file_hash: "00FF".to_string(),
    };
    assert_eq!(c.media_link(&m.rel_endpoint()), "http://h/media//x.png?id=31&checksum=00FF");
}

#[test]
fn upload_status() {
    assert_eq!(check_upload_status(200), Ok(()));
    assert_eq!(check_upload_status(299), Ok(()));
    assert_eq!(check_upload_status(199), Err(UploadError::FailStatusCode { status_code: 199 }));
    assert_eq!(check_upload_status(300), Err(UploadError::FailStatusCode { status_code: 300 }));
    assert_eq!(check_upload_status(404), Err(UploadError::FailStatusCode { status_code: 404 }));
}
