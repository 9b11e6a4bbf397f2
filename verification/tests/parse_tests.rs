use durl::numparse::parse_u64_decimal;
use durl::session::DownloadFile;

#[test]
fn parses_plain_decimals() {
    assert_eq!(parse_u64_decimal("0"), Some(0));
    assert_eq!(parse_u64_decimal("123"), Some(123));
    assert_eq!(parse_u64_decimal("10000000"), Some(10_000_000));
}

#[test]
fn accepts_one_leading_plus() {
    assert_eq!(parse_u64_decimal("+7"), Some(7));
    assert_eq!(parse_u64_decimal("+"), None);
    assert_eq!(parse_u64_decimal("++7"), None);
}

#[test]
fn rejects_junk() {
    assert_eq!(parse_u64_decimal(""), None);
    assert_eq!(parse_u64_decimal(" 1"), None);
    assert_eq!(parse_u64_decimal("1 "), None);
    assert_eq!(parse_u64_decimal("12a"), None);
    assert_eq!(parse_u64_decimal("-1"), None);
    assert_eq!(parse_u64_decimal("1.5"), None);
}

#[test]
fn respects_the_64_bit_limit() {
    assert_eq!(parse_u64_decimal("18446744073709551615"), Some(u64::MAX));
    assert_eq!(parse_u64_decimal("18446744073709551616"), None);
    assert_eq!(parse_u64_decimal("99999999999999999999999"), None);
}

#[test]
fn get_size_reads_content_length() {
    match DownloadFile::get_size(200, "200 OK", Some("4096"), "http://e/f") {
        Ok(size) => assert_eq!(size, 4096),
        Err(e) => panic!("unexpected error: {:?}", e),
    }
}

#[test]
fn get_size_rejects_bad_status() {
    match DownloadFile::get_size(503, "503 Service Unavailable", Some("4096"), "http://e/f") {
        Err(durl::error::DownloadError::HttpStatusError { status }) => {
            assert_eq!(status.as_str(), "503 Service Unavailable")
        }
        other => panic!("unexpected result: {:?}", other),
    }
}

#[test]
fn get_size_rejects_missing_or_bad_length() {
    match DownloadFile::get_size(200, "200 OK", None, "http://e/f") {
        Err(durl::error::DownloadError::NotGetFileSize { url }) => {
            assert_eq!(url.as_str(), "http://e/f")
        }
        other => panic!("unexpected result: {:?}", other),
    }
    match DownloadFile::get_size(200, "200 OK", Some("many"), "http://e/f") {
        Err(durl::error::DownloadError::NotGetFileSize { .. }) => {}
        other => panic!("unexpected result: {:?}", other),
    }
}
