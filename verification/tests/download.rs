use download_engine::engine::DownloadRequest;
use download_engine::engine::Engine;
use download_engine::engine::Phase;
use download_engine::error::DownloadError;
use download_engine::run::run_download;
use download_engine::run::ChunkOutcome;
use download_engine::run::FetchOutcome;

fn request() -> DownloadRequest {
    DownloadRequest {
        url: String::from("https://example.test/a.bin"),
        destination_dir: String::from("/tmp/out"),
        file_name: String::from("a.bin"),
    }
}

#[test]
fn successful_download_two_chunks() {
    let body = vec![
        ChunkOutcome::Data(vec![1, 2, 3, 4, 5]),
        ChunkOutcome::Data(vec![6, 7, 8, 9, 10]),
    ];
    let (result, file) = run_download(&request(), FetchOutcome::Response(200), Ok(()), Ok(()), body);
    assert_eq!(result, Ok(String::from("downloaded to: /tmp/out/a.bin")));
    assert_eq!(file, Some(vec![1, 2, 3, 4, 5, 6, 7, 8, 9, 10]));
}

#[test]
fn successful_download_empty_body() {
    let (result, file) =
        run_download(&request(), FetchOutcome::Response(200), Ok(()), Ok(()), vec![]);
    assert_eq!(result, Ok(String::from("downloaded to: /tmp/out/a.bin")));
    assert_eq!(file, Some(vec![]));
}

#[test]
fn chunk_boundaries_do_not_matter() {
    let one = vec![ChunkOutcome::Data(vec![9, 8, 7, 6])];
    let many = vec![
        ChunkOutcome::Data(vec![9]),
        ChunkOutcome::Data(vec![]),
        ChunkOutcome::Data(vec![8, 7]),
        ChunkOutcome::Data(vec![6]),
    ];
    let (_, file_one) =
        run_download(&request(), FetchOutcome::Response(200), Ok(()), Ok(()), one);
    let (_, file_many) =
        run_download(&request(), FetchOutcome::Response(200), Ok(()), Ok(()), many);
    assert_eq!(file_one, Some(vec![9, 8, 7, 6]));
    assert_eq!(file_one, file_many);
}

#[test]
fn non_success_status_creates_no_file() {
    let body = vec![ChunkOutcome::Data(vec![1, 2, 3])];
    let (result, file) = run_download(&request(), FetchOutcome::Response(404), Ok(()), Ok(()), body);
    assert_eq!(result, Err(DownloadError::Status { code: 404 }));
    assert!(file.is_none());
    let message = result.unwrap_err().message();
    assert!(message.contains("404"));
    assert!(message.contains("non-success status code"));
}

#[test]
fn transport_failure_creates_no_file() {
    let (result, file) = run_download(
        &request(),
        FetchOutcome::TransportFailure(String::from("dns error")),
        Ok(()),
        Ok(()),
        vec![],
    );
    assert_eq!(result, Err(DownloadError::Transport { detail: String::from("dns error") }));
    assert!(file.is_none());
}

#[test]
fn directory_failure_creates_no_file() {
    let (result, file) = run_download(
        &request(),
        FetchOutcome::Response(200),
        Err(String::from("permission denied")),
        Ok(()),
        vec![ChunkOutcome::Data(vec![1])],
    );
    assert_eq!(
        result,
        Err(DownloadError::Directory { detail: String::from("permission denied") })
    );
    assert!(file.is_none());
    let message = result.unwrap_err().message();
    assert!(message.contains("failed to create directory"));
    assert!(message.contains("permission denied"));
}

#[test]
fn file_creation_failure_creates_no_file() {
    let (result, file) = run_download(
        &request(),
        FetchOutcome::Response(200),
        Ok(()),
        Err(String::from("read-only file system")),
        vec![ChunkOutcome::Data(vec![1])],
    );
    assert_eq!(
        result,
        Err(DownloadError::FileCreate { detail: String::from("read-only file system") })
    );
    assert!(file.is_none());
}

#[test]
fn interrupted_stream_keeps_exact_prefix() {
    let body = vec![
        ChunkOutcome::Data(vec![10, 20]),
        ChunkOutcome::Data(vec![30]),
        ChunkOutcome::ReadFailure(String::from("connection reset")),
        ChunkOutcome::Data(vec![40, 50]),
    ];
    let (result, file) = run_download(&request(), FetchOutcome::Response(200), Ok(()), Ok(()), body);
    assert_eq!(
        result,
        Err(DownloadError::StreamRead { detail: String::from("connection reset") })
    );
    assert_eq!(file, Some(vec![10, 20, 30]));
}

#[test]
fn interrupted_stream_at_first_chunk_keeps_empty_file() {
    let body = vec![ChunkOutcome::ReadFailure(String::from("timed out"))];
    let (result, file) = run_download(&request(), FetchOutcome::Response(200), Ok(()), Ok(()), body);
    assert_eq!(result, Err(DownloadError::StreamRead { detail: String::from("timed out") }));
    assert_eq!(file, Some(vec![]));
}

#[test]
fn repeated_download_overwrites() {
    let first = vec![ChunkOutcome::Data(vec![1, 1, 1, 1, 1, 1, 1, 1])];
    let second = vec![ChunkOutcome::Data(vec![2, 2])];
    let (first_result, first_file) =
        run_download(&request(), FetchOutcome::Response(200), Ok(()), Ok(()), first);
    assert!(first_result.is_ok());
    assert_eq!(first_file, Some(vec![1, 1, 1, 1, 1, 1, 1, 1]));
    let (second_result, second_file) =
        run_download(&request(), FetchOutcome::Response(200), Ok(()), Ok(()), second);
    assert!(second_result.is_ok());
    assert_eq!(second_file, Some(vec![2, 2]));
}

#[test]
fn engine_walks_the_phases() {
    let req = request();
    let mut engine = Engine::new(&req);
    assert_eq!(engine.current_phase(), Phase::AwaitingResponse);
    assert_eq!(engine.destination(), "/tmp/out/a.bin");
    assert!(engine.on_status(200).is_ok());
    assert_eq!(engine.current_phase(), Phase::PreparingDirectory);
    assert!(engine.on_directory(Ok(())).is_ok());
    assert_eq!(engine.current_phase(), Phase::CreatingFile);
    assert!(!engine.has_file());
    assert!(engine.on_file(Ok(())).is_ok());
    assert_eq!(engine.current_phase(), Phase::Streaming);
    assert!(engine.has_file());
    engine.on_chunk_written(&vec![1, 2, 3]);
    let message = engine.finish();
    assert_eq!(engine.current_phase(), Phase::Complete);
    assert_eq!(message, "downloaded to: /tmp/out/a.bin");
}

#[test]
fn engine_rejects_status_without_file() {
    let req = request();
    let mut engine = Engine::new(&req);
    let r = engine.on_status(500);
    assert_eq!(r, Err(DownloadError::Status { code: 500 }));
    assert_eq!(engine.current_phase(), Phase::Failed);
    assert!(!engine.has_file());
}

#[test]
fn engine_write_error_keeps_file() {
    let req = request();
    let mut engine = Engine::new(&req);
    assert!(engine.on_status(201).is_ok());
    assert!(engine.on_directory(Ok(())).is_ok());
    assert!(engine.on_file(Ok(())).is_ok());
    engine.on_chunk_written(&vec![7]);
    let e = engine.on_write_error(String::from("disk full"));
    assert_eq!(e, DownloadError::Write { detail: String::from("disk full") });
    assert_eq!(e.message(), "failed to write file: disk full");
    assert_eq!(engine.current_phase(), Phase::Failed);
    assert!(engine.has_file());
}

#[test]
fn engine_transport_error_before_anything() {
    let req = request();
    let mut engine = Engine::new(&req);
    let e = engine.on_transport_error(String::from("connection refused"));
    assert_eq!(e, DownloadError::Transport { detail: String::from("connection refused") });
    assert_eq!(engine.current_phase(), Phase::Failed);
    assert!(!engine.has_file());
}
