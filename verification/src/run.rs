//! A whole download in one call: given the observable outcome of each
//! outside step — the fetch, the directory creation, the file creation,
//! and every awaited body chunk — drive the engine from start to finish
//! and return the result together with the destination file's final
//! bytes. The contract pins down the result and the file for every
//! combination of outcomes.

use vstd::prelude::*;
use crate::chunks::concat_chunks;
use crate::chunks::lemma_concat_chunks_len;
use crate::chunks::total_len;
use crate::engine::DownloadRequest;
use crate::engine::Engine;
use crate::engine::success_message;
use crate::error::DownloadError;
use crate::is_success_code;
use crate::text::joined_path;

verus! {

/// The observable outcome of issuing the GET request.
pub enum FetchOutcome {
    /// The response headers arrived with this status code.
    Response(u16),
    /// The request could not be sent at all.
    TransportFailure(String),
}

/// The outcome of awaiting one chunk of the response body.
pub enum ChunkOutcome {
    /// A chunk of bytes arrived and was written.
    Data(Vec<u8>),
    /// The stream failed before this chunk could be read.
    ReadFailure(String),
}

/// The payload a chunk outcome delivers; a failure delivers nothing.
pub open spec fn chunk_data(c: ChunkOutcome) -> Seq<u8> {
    match c {
        ChunkOutcome::Data(v) => v@,
        ChunkOutcome::ReadFailure(_) => Seq::<u8>::empty(),
    }
}

/// The payloads of the first `k` chunk outcomes, in order.
pub open spec fn data_prefix(cs: Seq<ChunkOutcome>, k: int) -> Seq<Seq<u8>>
    decreases k,
{
    if k <= 0 {
        Seq::<Seq<u8>>::empty()
    } else {
        data_prefix(cs, k - 1).push(chunk_data(cs[k - 1]))
    }
}

/// The index of the first stream failure among the chunk outcomes, or
/// their number when every one delivered data.
pub open spec fn failure_index(cs: Seq<ChunkOutcome>) -> int
    decreases cs.len(),
{
    if cs.len() == 0 {
        0
    } else if !(cs[0] is Data) {
        0
    } else {
        1 + failure_index(cs.drop_first())
    }
}

/// The payloads delivered before the first stream failure.
pub open spec fn delivered(cs: Seq<ChunkOutcome>) -> Seq<Seq<u8>> {
    data_prefix(cs, failure_index(cs))
}

/// True when the fetch produced a response with a success status.
pub open spec fn fetch_ok(fetch: FetchOutcome) -> bool {
    fetch matches FetchOutcome::Response(code) && is_success_code(code)
}

/// An index below which every outcome is data, and which is either the
/// end or a failure, is exactly the first failure index.
pub proof fn lemma_failure_index_is(cs: Seq<ChunkOutcome>, i: int)
    requires
        0 <= i <= cs.len(),
        forall|j: int| 0 <= j < i ==> cs[j] is Data,
        i < cs.len() ==> !(cs[i] is Data),
    ensures
        failure_index(cs) == i,
    decreases cs.len(),
{
    if cs.len() == 0 {
    } else if !(cs[0] is Data) {
        assert(i == 0);
    } else {
        let rest = cs.drop_first();
        assert(forall|j: int| 0 <= j < i - 1 ==> rest[j] == cs[j + 1]);
        lemma_failure_index_is(rest, i - 1);
    }
}

/// Law: when every awaited chunk arrives, the whole body is delivered —
/// the file is the concatenation of every payload, whatever chunk
/// boundaries the transport chose, and its size is the payload sizes
/// summed.
pub proof fn lemma_all_delivered(cs: Seq<ChunkOutcome>)
    requires
        forall|j: int| 0 <= j < cs.len() ==> cs[j] is Data,
    ensures
        delivered(cs) == data_prefix(cs, cs.len() as int),
        concat_chunks(delivered(cs)).len() == total_len(delivered(cs)),
{
    lemma_failure_index_is(cs, cs.len() as int);
    lemma_concat_chunks_len(delivered(cs));
}

/// Appends the bytes of `src` to `dst`.
fn append_bytes(dst: &mut Vec<u8>, src: &Vec<u8>)
    ensures
        final(dst)@ == old(dst)@ + src@,
{
    let mut i: usize = 0;
    while i < src.len()
        invariant
            i <= src.len(),
            dst@ == old(dst)@ + src@.take(i as int),
        decreases src.len() - i,
    {
        dst.push(src[i]);
        proof {
            assert(old(dst)@ + src@.take(i as int) + seq![src@[i as int]]
                =~= old(dst)@ + src@.take(i as int + 1));
        }
        i += 1;
    }
    proof {
        assert(old(dst)@ + src@.take(src@.len() as int) =~= old(dst)@ + src@);
    }
}

/// Runs one whole download for `req`, the outside world's part given as
/// plain outcomes: `fetch` for the GET, `dir_outcome` for creating the
/// destination directory tree, `file_outcome` for creating the
/// destination file, and `body` for the awaited chunks in order. Returns
/// the download result and the destination file's final state: `None`
/// when no file was created, `Some(bytes)` when one was.
pub fn run_download(
    req: &DownloadRequest,
    fetch: FetchOutcome,
    dir_outcome: Result<(), String>,
    file_outcome: Result<(), String>,
    body: Vec<ChunkOutcome>,
) -> (r: (Result<String, DownloadError>, Option<Vec<u8>>))
    ensures
        fetch matches FetchOutcome::TransportFailure(d) ==> (r.0
            == Result::<String, DownloadError>::Err((DownloadError::Transport { detail: d }))
            && r.1 is None),
        fetch matches FetchOutcome::Response(code) ==> (!is_success_code(code) ==> (r.0
            == Result::<String, DownloadError>::Err((DownloadError::Status { code }))
            && r.1 is None)),
        fetch_ok(fetch) ==> (dir_outcome matches Err(d) ==> (r.0
            == Result::<String, DownloadError>::Err((DownloadError::Directory { detail: d }))
            && r.1 is None)),
        fetch_ok(fetch) && dir_outcome is Ok ==> (file_outcome matches Err(d) ==> (r.0
            == Result::<String, DownloadError>::Err((DownloadError::FileCreate { detail: d }))
            && r.1 is None)),
        fetch_ok(fetch) && dir_outcome is Ok && file_outcome is Ok ==> (r.1 matches Some(data)
            && data@ == concat_chunks(delivered(body@))),
        fetch_ok(fetch) && dir_outcome is Ok && file_outcome is Ok
            && failure_index(body@) == body@.len() ==> (r.0 matches Ok(msg)
            && msg@ == success_message(joined_path(req.destination_dir@, req.file_name@))),
        fetch_ok(fetch) && dir_outcome is Ok && file_outcome is Ok
            && failure_index(body@) < body@.len() ==> (r.0 matches Err(e)
            && (body@[failure_index(body@)] matches ChunkOutcome::ReadFailure(d)
            ==> e == (DownloadError::StreamRead { detail: d }))),
{
    let mut engine = Engine::new(req);
    let code = match fetch {
        FetchOutcome::TransportFailure(detail) => {
            let e = engine.on_transport_error(detail);
            return (Err(e), None);
        },
        FetchOutcome::Response(code) => code,
    };
    if let Err(e) = engine.on_status(code) {
        return (Err(e), None);
    }
    if let Err(e) = engine.on_directory(dir_outcome) {
        return (Err(e), None);
    }
    if let Err(e) = engine.on_file(file_outcome) {
        return (Err(e), None);
    }
    let mut data: Vec<u8> = Vec::new();
    let mut i: usize = 0;
    while i < body.len()
        invariant
            fetch_ok(fetch),
            dir_outcome is Ok,
            file_outcome is Ok,
            engine.wf(),
            engine.phase() is Streaming,
            engine.dest_path() == joined_path(req.destination_dir@, req.file_name@),
            i <= body@.len(),
            forall|j: int| 0 <= j < i ==> body@[j] is Data,
            engine.chunks() == data_prefix(body@, i as int),
            data@ == engine.content(),
        decreases body@.len() - i,
    {
        match &body[i] {
            ChunkOutcome::Data(bytes) => {
                append_bytes(&mut data, bytes);
                engine.on_chunk_written(bytes);
                i += 1;
            },
            ChunkOutcome::ReadFailure(d) => {
                let e = engine.on_read_error(d.clone());
                proof {
                    lemma_failure_index_is(body@, i as int);
                }
                return (Err(e), Some(data));
            },
        }
    }
    proof {
        lemma_failure_index_is(body@, body@.len() as int);
    }
    let msg = engine.finish();
    (Ok(msg), Some(data))
}

} // verus!
