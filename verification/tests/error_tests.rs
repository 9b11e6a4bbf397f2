use durl::error::DownLoadFFIError;
use durl::error::DownloadError;

#[test]
fn error_codes_are_distinct() {
    let errs = vec![
        DownloadError::ReqwestError { msg: String::from("boom") },
        DownloadError::IoError { msg: String::from("disk") },
        DownloadError::NotGetFileSize { url: String::from("http://e/f") },
        DownloadError::SaveFileFinish { path: String::from("/tmp/f") },
        DownloadError::NotFileName { url: String::from("http://e/") },
        DownloadError::HttpStatusError { status: String::from("503") },
        DownloadError::JoinInError { msg: String::from("cancelled") },
    ];
    let codes: Vec<i32> = errs.iter().map(|e| e.error_code()).collect();
    assert_eq!(codes, vec![1, 2, 3, 4, 5, 6, 7]);
}

#[test]
fn ffi_error_codes() {
    assert_eq!(DownLoadFFIError::Success.code(), 0);
    assert_eq!(DownLoadFFIError::NullPassed.code(), 1);
    assert_eq!(DownLoadFFIError::Panic.code(), 2);
    assert_eq!(DownLoadFFIError::DownError.code(), 3);
}

#[test]
fn ffi_error_from_download_error() {
    let e = DownloadError::HttpStatusError { status: String::from("404") };
    let ffi = DownLoadFFIError::from(e);
    assert_eq!(ffi, DownLoadFFIError::DownError);
    assert_eq!(ffi.code(), 3);
}
