use ocloud::cdn_model;
use ocloud::model;
use ocloud::text::{push_decimal, to_hex_upper};

fn server_media(id: i64, file_name: &str, file_hash: &str) -> model::Media {
    model::Media {
        id,
        uploaded_time: 1_700_000_000_000,
        accessed_time: 1_700_000_000_000,
        expiring_time: 0,
        file_size: 3,
        file_name: file_name.to_string(),
        file_hash: file_hash.to_string(),
    }
}

fn cdn_media(id: i64, file_name: &str, file_hash: &str) -> cdn_model::Media {
    cdn_model::Media {
        id,
        uploaded_time: 1_700_000_000_000,
        accessed_time: 1_700_000_000_000,
        expiring_time: 0,
        file_size: 3,
        file_name: file_name.to_string(),
        file_hash: file_hash.to_string(),
    }
}

fn decimal(n: i64) -> String {
    let mut s = String::new();
    push_decimal(&mut s, n);
    s
}

#[test]
fn decimal_renders_like_display() {
    for n in [0i64, 7, 10, 42, -1, -10, 1234567890, i64::MAX, i64::MIN] {
        assert_eq!(decimal(n), n.to_string());
    }
    assert_eq!(decimal(i64::MIN), "-9223372036854775808");
}

#[test]
fn decimal_appends_to_existing_text() {
    let mut s = String::from("id=");
    push_decimal(&mut s, -305);
    assert_eq!(s, "id=-305");
}

#[test]
fn hex_upper_renders_two_digits_per_byte() {
    assert_eq!(to_hex_upper(&[0xbe, 0xef]), "BEEF");
    assert_eq!(to_hex_upper(&[0x00, 0x0a, 0xff]), "000AFF");
    assert_eq!(to_hex_upper(&[]), "");
}

#[test]
fn hex_upper_distinct_bytes_distinct_text() {
    assert_ne!(to_hex_upper(&[0x01, 0x23]), to_hex_upper(&[0x12, 0x03]));
    assert_ne!(to_hex_upper(&[0x0a]), to_hex_upper(&[0x00, 0x0a]));
}

#[test]
fn server_rel_endpoint_format() {
    let m = server_media(12, "cat.png", "ABCD");
    assert_eq!(m.rel_endpoint(), "/cat.png?id=12&checksum=ABCD");
}

#[test]
fn server_true_filename_format() {
    let m = server_media(12, "cat.png", "ABCD");
    assert_eq!(m.true_filename(), "12_ABCD");
    let n = server_media(-3, "cat.png", "");
    assert_eq!(n.true_filename(), "-3_");
}

#[test]
fn server_true_filename_identifies_row() {
    // "1_2_X" could only come from id 1 with hash "2_X".
    let a = server_media(1, "f", "2_X");
    let b = server_media(12, "f", "X");
    assert_ne!(a.true_filename(), b.true_filename());
    let c = server_media(12, "f", "X");
    assert_eq!(b.true_filename(), c.true_filename());
}

#[test]
fn cdn_rel_endpoint_format() {
    let m = cdn_media(5, "song.mp3", "FF00");
    assert_eq!(m.rel_endpoint(), "/song.mp3?id=5&checksum=FF00");
}

#[test]
fn cdn_true_filename_is_checksum() {
    let a = cdn_media(5, "a.txt", "0123");
    let b = cdn_media(6, "b.txt", "0123");
    assert_eq!(a.true_filename(), "0123");
    assert_eq!(a.true_filename(), b.true_filename());
}

fn read_back(endpoint: &str) -> (String, Vec<(String, String)>) {
    let (path, rest) = endpoint.split_once('?').unwrap();
    let query = rest.split('#').next().unwrap();
    let path = path.strip_prefix('/').unwrap_or(path).to_string();
    let pairs = query
        .split('&')
        .filter(|p| !p.is_empty())
        .map(|p| match p.split_once('=') {
            Some((k, v)) => (k.to_string(), v.to_string()),
            None => (p.to_string(), String::new()),
        })
        .collect();
    (path, pairs)
}

#[test]
fn endpoint_query_reads_back() {
    let m = server_media(-42, "cat.png", "ABCD");
    let (path, pairs) = read_back(&m.rel_endpoint());
    assert_eq!(path, "cat.png");
    assert_eq!(pairs, vec![("id".to_string(), "-42".to_string()), ("checksum".to_string(), "ABCD".to_string())]);
    let c = cdn_media(7, "song.mp3", "FF00");
    let (path, pairs) = read_back(&c.rel_endpoint());
    assert_eq!(path, "song.mp3");
    assert_eq!(pairs[0].1.parse::<i64>().unwrap(), 7);
    assert_eq!(pairs, vec![("id".to_string(), "7".to_string()), ("checksum".to_string(), "FF00".to_string())]);
}

#[test]
fn endpoint_documented_format() {
    assert_eq!(server_media(7, "cat.png", "ABC123").rel_endpoint(), "/cat.png?id=7&checksum=ABC123");
    assert_eq!(cdn_media(7, "cat.png", "ABC123").rel_endpoint(), "/cat.png?id=7&checksum=ABC123");
}
