use wogaer::download::{
    announced_size, callback_verdict, check_download_status, completed_progress, download_headers,
    expected_total, is_temp_file, plan_download, DownloadError,
};

#[test]
fn file_names() {
    let plan = plan_download("https://example.com/files/app.zip", None);
    assert_eq!(plan.file_name, "app.zip");
    assert_eq!(plan.temp_name, "app.zip.tmp");
    let plan = plan_download("https://example.com/files/app.zip", Some("mine.zip"));
    assert_eq!(plan.file_name, "mine.zip");
    assert_eq!(plan.temp_name, "mine.zip.tmp");
    let plan = plan_download("https://example.com/files/", None);
    assert_eq!(plan.file_name, "");
    assert_eq!(plan.temp_name, ".tmp");
    let plan = plan_download("noslash", None);
    assert_eq!(plan.file_name, "noslash");
}

#[test]
fn request_headers() {
    let h = download_headers(None, 0);
    assert_eq!(h, vec![("user-agent".to_string(), "woGAer".to_string())]);
    let h = download_headers(Some("t0k"), 1500);
    assert_eq!(
        h,
        vec![
            ("user-agent".to_string(), "woGAer".to_string()),
            ("authorization".to_string(), "Bearer t0k".to_string()),
            ("range".to_string(), "bytes=1500-".to_string()),
        ]
    );
}

#[test]
fn accepted_statuses() {
    assert!(check_download_status(200, "").is_ok());
    assert!(check_download_status(206, "").is_ok());
    let e = check_download_status(416, "range").unwrap_err();
    assert!(matches!(e, DownloadError::Status(_)));
    assert_eq!(e.message(), "Download failed: 416 Range Not Satisfiable - range");
    assert_eq!(DownloadError::Request.message(), "Download request failed");
}

#[test]
fn announced_sizes() {
    assert_eq!(announced_size(Some("bytes 100-199/2000"), Some("100")), 2000);
    assert_eq!(announced_size(Some("bytes 0-99/*"), Some("100")), 100);
    assert_eq!(announced_size(None, Some("4096")), 4096);
    assert_eq!(announced_size(None, Some("abc")), 0);
    assert_eq!(announced_size(None, None), 0);
    assert_eq!(announced_size(Some("2000"), None), 2000);
}

#[test]
fn totals_and_completion() {
    assert_eq!(expected_total(100, 300), 300);
    assert_eq!(expected_total(500, 300), 500);
    let p = completed_progress(1000, 400, 600);
    assert_eq!(p.total_bytes, 1000);
    assert_eq!(p.downloaded_bytes, 1000);
    assert!(p.finished);
    let p = completed_progress(0, 0, 10);
    assert_eq!(p.total_bytes, 0);
    assert_eq!(p.downloaded_bytes, 10);
}

#[test]
fn cancelling_and_leftovers() {
    assert!(callback_verdict(true).is_ok());
    let e = callback_verdict(false).unwrap_err();
    assert!(matches!(e, DownloadError::Cancelled));
    assert_eq!(e.message(), "Download cancelled by callback");
    assert!(is_temp_file("app.zip.tmp"));
    assert!(is_temp_file("..tmp"));
    assert!(!is_temp_file(".tmp"));
    assert!(!is_temp_file("tmp"));
    assert!(!is_temp_file("app.zip"));
    assert!(!is_temp_file("app.TMP"));
}
