//! The download engine: one request moves through validating the response
//! status, ensuring the destination directory, creating the destination
//! file, and appending body chunks in arrival order. Every decision is
//! made here; the caller performs the network and disk I/O and reports
//! each outcome back as a plain value.

use vstd::prelude::*;
use vstd::string::*;
use crate::chunks::concat_chunks;
use crate::chunks::lemma_concat_chunks_len;
use crate::chunks::lemma_concat_chunks_push;
use crate::chunks::total_len;
use crate::error::DownloadError;
use crate::is_success_code;
use crate::status_is_success;
use crate::text::join_path;
use crate::text::joined_path;

verus! {

/// One download request: the source URL, the destination directory, and
/// the file name, which together name exactly one destination path.
pub struct DownloadRequest {
    pub url: String,
    pub destination_dir: String,
    pub file_name: String,
}

impl DownloadRequest {
    /// The full destination path: the directory joined with the file name.
    pub fn dest_path(&self) -> (r: String)
        ensures
            r@ == joined_path(self.destination_dir@, self.file_name@),
    {
        join_path(self.destination_dir.as_str(), self.file_name.as_str())
    }
}

/// Where the engine stands in the pipeline.
#[derive(Clone, Copy, Debug, PartialEq, Eq, Structural)]
pub enum Phase {
    /// The request was issued; the response status has not arrived yet.
    AwaitingResponse,
    /// The status was accepted; the destination directory is being ensured.
    PreparingDirectory,
    /// The directory exists; the destination file is being created.
    CreatingFile,
    /// The file is open and empty or partially written; chunks are arriving.
    Streaming,
    /// The body was exhausted and the file holds every delivered byte.
    Complete,
    /// Some stage failed; the engine takes no further step.
    Failed,
}

/// The success message returned once the whole body is on disk.
pub open spec fn success_message(path: Seq<char>) -> Seq<char> {
    "downloaded to: "@ + path
}

/// The verified core of one download. It tracks the pipeline phase,
/// whether the destination file exists yet, and — as a ghost model —
/// the chunks appended to it so far.
pub struct Engine {
    state: Phase,
    dest: String,
    created: bool,
    received: Ghost<Seq<Seq<u8>>>,
}

impl Engine {
    /// The engine's current phase.
    pub closed spec fn phase(self) -> Phase {
        self.state
    }

    /// The destination path the engine writes to.
    pub closed spec fn dest_path(self) -> Seq<char> {
        self.dest@
    }

    /// Whether the destination file has been created in this run.
    pub closed spec fn file_created(self) -> bool {
        self.created
    }

    /// The chunks appended to the file so far, in arrival order.
    pub closed spec fn chunks(self) -> Seq<Seq<u8>> {
        self.received@
    }

    /// The bytes the destination file holds: the chunks concatenated in
    /// arrival order, nothing reordered, nothing retained from before
    /// the file was created.
    pub open spec fn content(self) -> Seq<u8> {
        concat_chunks(self.chunks())
    }

    /// The engine's invariant: no file exists before the directory stage
    /// has succeeded and the file stage begun, no chunk is recorded
    /// before the file exists, and a streaming or complete engine has
    /// its file.
    pub open spec fn wf(self) -> bool {
        &&& self.phase() is AwaitingResponse || self.phase() is PreparingDirectory
            || self.phase() is CreatingFile ==> !self.file_created() && self.chunks().len() == 0
        &&& self.phase() is Streaming || self.phase() is Complete ==> self.file_created()
    }

    /// Starts a download for `req`. The first awaited outcome is the
    /// response status.
    pub fn new(req: &DownloadRequest) -> (e: Engine)
        ensures
            e.wf(),
            e.phase() is AwaitingResponse,
            e.dest_path() == joined_path(req.destination_dir@, req.file_name@),
            !e.file_created(),
            e.chunks() == Seq::<Seq<u8>>::empty(),
            e.content() == Seq::<u8>::empty(),
    {
        Engine {
            state: Phase::AwaitingResponse,
            dest: req.dest_path(),
            created: false,
            received: Ghost(Seq::empty()),
        }
    }

    /// The request could not be sent: the download fails at the transport
    /// stage, before anything touched the filesystem.
    pub fn on_transport_error(&mut self, detail: String) -> (e: DownloadError)
        requires
            old(self).wf(),
            old(self).phase() is AwaitingResponse,
        ensures
            final(self).wf(),
            final(self).phase() is Failed,
            !final(self).file_created(),
            final(self).dest_path() == old(self).dest_path(),
            final(self).content() == Seq::<u8>::empty(),
            e == (DownloadError::Transport { detail }),
    {
        self.state = Phase::Failed;
        DownloadError::Transport { detail }
    }

    /// The response headers arrived. A 2xx status moves on to preparing
    /// the directory; any other status fails the download with that code,
    /// the body unread and no file created.
    pub fn on_status(&mut self, code: u16) -> (r: Result<(), DownloadError>)
        requires
            old(self).wf(),
            old(self).phase() is AwaitingResponse,
        ensures
            final(self).wf(),
            final(self).dest_path() == old(self).dest_path(),
            !final(self).file_created(),
            final(self).content() == Seq::<u8>::empty(),
            r is Ok <==> is_success_code(code),
            is_success_code(code) ==> final(self).phase() is PreparingDirectory,
            !is_success_code(code) ==> final(self).phase() is Failed
                && r == Result::<(), DownloadError>::Err(DownloadError::Status { code }),
    {
        if status_is_success(code) {
            self.state = Phase::PreparingDirectory;
            Ok(())
        } else {
            self.state = Phase::Failed;
            Err(DownloadError::Status { code })
        }
    }

    /// The outcome of creating the destination directory tree. On failure
    /// the download stops with a directory error and no file is created.
    pub fn on_directory(&mut self, outcome: Result<(), String>) -> (r: Result<(), DownloadError>)
        requires
            old(self).wf(),
            old(self).phase() is PreparingDirectory,
        ensures
            final(self).wf(),
            final(self).dest_path() == old(self).dest_path(),
            !final(self).file_created(),
            final(self).content() == Seq::<u8>::empty(),
            r is Ok <==> outcome is Ok,
            outcome is Ok ==> final(self).phase() is CreatingFile,
            outcome matches Err(d) ==> final(self).phase() is Failed
                && r == Result::<(), DownloadError>::Err((DownloadError::Directory { detail: d })),
    {
        match outcome {
            Ok(()) => {
                self.state = Phase::CreatingFile;
                Ok(())
            },
            Err(detail) => {
                self.state = Phase::Failed;
                Err(DownloadError::Directory { detail })
            },
        }
    }

    /// The outcome of opening (creating or truncating) the destination
    /// file. On success the file exists and holds no bytes: a repeated
    /// download starts from an empty file and never appends to an earlier
    /// one. On failure no file exists.
    pub fn on_file(&mut self, outcome: Result<(), String>) -> (r: Result<(), DownloadError>)
        requires
            old(self).wf(),
            old(self).phase() is CreatingFile,
        ensures
            final(self).wf(),
            final(self).dest_path() == old(self).dest_path(),
            final(self).chunks() == Seq::<Seq<u8>>::empty(),
            final(self).content() == Seq::<u8>::empty(),
            r is Ok <==> outcome is Ok,
            outcome is Ok ==> final(self).phase() is Streaming && final(self).file_created(),
            outcome matches Err(d) ==> final(self).phase() is Failed && !final(self).file_created()
                && r == Result::<(), DownloadError>::Err((DownloadError::FileCreate { detail: d })),
    {
        match outcome {
            Ok(()) => {
                self.state = Phase::Streaming;
                self.created = true;
                Ok(())
            },
            Err(detail) => {
                self.state = Phase::Failed;
                Err(DownloadError::FileCreate { detail })
            },
        }
    }

    /// One chunk arrived and was appended to the file: the file now holds
    /// the old bytes followed by exactly this chunk's bytes.
    pub fn on_chunk_written(&mut self, chunk: &Vec<u8>)
        requires
            old(self).wf(),
            old(self).phase() is Streaming,
        ensures
            final(self).wf(),
            final(self).phase() is Streaming,
            final(self).file_created(),
            final(self).dest_path() == old(self).dest_path(),
            final(self).chunks() == old(self).chunks().push(chunk@),
            final(self).content() == old(self).content() + chunk@,
    {
        proof {
            lemma_concat_chunks_push(self.received@, chunk@);
        }
        self.received = Ghost(self.received@.push(chunk@));
    }

    /// The body stream failed mid-transfer. The download stops with a
    /// stream-read error; the bytes already written stay on disk,
    /// truncated, neither deleted nor padded.
    pub fn on_read_error(&mut self, detail: String) -> (e: DownloadError)
        requires
            old(self).wf(),
            old(self).phase() is Streaming,
        ensures
            final(self).wf(),
            final(self).phase() is Failed,
            final(self).file_created(),
            final(self).dest_path() == old(self).dest_path(),
            final(self).chunks() == old(self).chunks(),
            final(self).content() == old(self).content(),
            e == (DownloadError::StreamRead { detail }),
    {
        self.state = Phase::Failed;
        DownloadError::StreamRead { detail }
    }

    /// A disk write failed mid-transfer. The download stops with a write
    /// error; the chunks recorded so far stay on disk.
    pub fn on_write_error(&mut self, detail: String) -> (e: DownloadError)
        requires
            old(self).wf(),
            old(self).phase() is Streaming,
        ensures
            final(self).wf(),
            final(self).phase() is Failed,
            final(self).file_created(),
            final(self).dest_path() == old(self).dest_path(),
            final(self).chunks() == old(self).chunks(),
            final(self).content() == old(self).content(),
            e == (DownloadError::Write { detail }),
    {
        self.state = Phase::Failed;
        DownloadError::Write { detail }
    }

    /// The body was exhausted with no error: the download is complete and
    /// the success message carries the destination path.
    pub fn finish(&mut self) -> (r: String)
        requires
            old(self).wf(),
            old(self).phase() is Streaming,
        ensures
            final(self).wf(),
            final(self).phase() is Complete,
            final(self).file_created(),
            final(self).dest_path() == old(self).dest_path(),
            final(self).chunks() == old(self).chunks(),
            final(self).content() == old(self).content(),
            r@ == success_message(old(self).dest_path()),
    {
        self.state = Phase::Complete;
        String::from_str("downloaded to: ").concat(self.dest.as_str())
    }

    /// The engine's current phase, for callers outside the proof world.
    pub fn current_phase(&self) -> (p: Phase)
        ensures
            p == self.phase(),
    {
        self.state
    }

    /// Whether the destination file has been created in this run.
    pub fn has_file(&self) -> (b: bool)
        ensures
            b == self.file_created(),
    {
        self.created
    }

    /// The destination path the engine writes to.
    pub fn destination(&self) -> (r: String)
        ensures
            r@ == self.dest_path(),
    {
        self.dest.clone()
    }
}

/// Law: the destination file's bytes are exactly the received chunks,
/// concatenated in arrival order, and its size is the sum of the chunk
/// sizes — for any chunk boundaries the transport happened to choose.
pub proof fn lemma_content_is_chunks(e: Engine)
    requires
        e.wf(),
    ensures
        e.content() == concat_chunks(e.chunks()),
        e.content().len() == total_len(e.chunks()),
{
    lemma_concat_chunks_len(e.chunks());
}

/// Law: until the file-creation stage has succeeded — in particular after
/// a rejected status code or a failed directory creation — no file exists
/// and no byte has been written.
pub proof fn lemma_no_file_before_streaming(e: Engine)
    requires
        e.wf(),
        e.phase() is AwaitingResponse || e.phase() is PreparingDirectory
            || e.phase() is CreatingFile,
    ensures
        !e.file_created(),
        e.content() == Seq::<u8>::empty(),
{
}

} // verus!
