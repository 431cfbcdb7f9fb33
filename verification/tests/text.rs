use download_engine::error::DownloadError;
use download_engine::status_is_success;
use download_engine::text::join_path;

#[test]
fn join_plain_directory() {
    assert_eq!(join_path("/tmp/out", "a.bin"), "/tmp/out/a.bin");
}

#[test]
fn join_directory_with_trailing_separator() {
    assert_eq!(join_path("/tmp/out/", "a.bin"), "/tmp/out/a.bin");
}

#[test]
fn join_empty_directory() {
    assert_eq!(join_path("", "a.bin"), "a.bin");
}

#[test]
fn join_relative_directory() {
    assert_eq!(join_path("downloads", "clip.mp4"), "downloads/clip.mp4");
}

#[test]
fn success_range_boundaries() {
    assert!(!status_is_success(199));
    assert!(status_is_success(200));
    assert!(status_is_success(204));
    assert!(status_is_success(299));
    assert!(!status_is_success(300));
    assert!(!status_is_success(404));
    assert!(!status_is_success(500));
}

#[test]
fn transport_message() {
    let e = DownloadError::Transport { detail: String::from("connection refused") };
    assert_eq!(e.message(), "request failed: connection refused");
}

#[test]
fn status_message_renders_code() {
    let e = DownloadError::Status { code: 404 };
    assert_eq!(e.message(), "non-success status code: 404");
}

#[test]
fn status_message_edge_codes() {
    assert_eq!(DownloadError::Status { code: 0 }.message(), "non-success status code: 0");
    assert_eq!(DownloadError::Status { code: 7 }.message(), "non-success status code: 7");
    assert_eq!(
        DownloadError::Status { code: 65535 }.message(),
        "non-success status code: 65535"
    );
}

#[test]
fn directory_message() {
    let e = DownloadError::Directory { detail: String::from("permission denied") };
    assert_eq!(e.message(), "failed to create directory: permission denied");
}

#[test]
fn file_create_message() {
    let e = DownloadError::FileCreate { detail: String::from("is a directory") };
    assert_eq!(e.message(), "failed to create file: is a directory");
}

#[test]
fn stream_read_message() {
    let e = DownloadError::StreamRead { detail: String::from("connection reset") };
    assert_eq!(e.message(), "error during download: connection reset");
}

#[test]
fn write_message() {
    let e = DownloadError::Write { detail: String::from("no space left on device") };
    assert_eq!(e.message(), "failed to write file: no space left on device");
}
