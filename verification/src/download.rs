//! Fetching a job's source from its URL, in chunks and within a size limit.
//! The worker makes the request, reads and writes; this module decides.

use vstd::prelude::*;
use crate::error::{ErrorKind, Failure};

verus! {

/// How many bytes are read from the response at a time.
pub const CHUNK_SIZE: usize = 8192;

/// The one status with which a source is accepted.
pub const OK: u16 = 200;

/// What a download is waiting for.
#[derive(Clone, Copy, Debug, PartialEq, Eq, Structural)]
pub enum DownloadPhase {
    Created,
    /// The request is under way.
    Requesting,
    /// The input file is being created.
    Creating,
    /// A chunk of the body is being read.
    Reading,
    /// The chunk that was read is being written.
    Writing,
    Finished,
    Failed(Failure),
}

/// The state of a download: what it waits for, how many bytes of the body it
/// has taken in, and how many it may take in.
#[derive(Clone, Copy, Debug, PartialEq, Eq, Structural)]
pub struct Download {
    pub phase: DownloadPhase,
    pub received: usize,
    pub limit: usize,
}

/// How the step that the download asked for has ended.
#[derive(Clone, Copy, Debug, PartialEq, Eq, Structural)]
pub enum DownloadEvent {
    /// The worker is ready for the first step.
    Start,
    /// The server answered with this status.
    Response(u16),
    /// This many bytes of the body were read; 0 at its end.
    Chunk(usize),
    /// The step succeeded.
    Done,
    /// The step failed: no answer came, or a file or the body could not be
    /// read or written.
    Failed,
}

/// The step that the worker is to take next.
#[derive(Clone, Copy, Debug, PartialEq, Eq, Structural)]
pub enum DownloadAction {
    /// Send a GET request to the URL.
    Get,
    /// Create the input file.
    CreateFile,
    /// Read up to this many bytes of the body.
    Read(usize),
    /// Append the bytes that were read to the input file.
    Write,
    /// The source is staged.
    Succeed,
    /// The download has failed.
    Fail(Failure),
}

/// A download that has not started and may take in `limit` bytes.
pub open spec fn created(limit: usize) -> Download {
    Download { phase: DownloadPhase::Created, received: 0, limit }
}

/// Ends the download with a failure.
pub open spec fn abort(state: Download, failure: Failure) -> (Download, DownloadAction) {
    (Download { phase: DownloadPhase::Failed(failure), ..state }, DownloadAction::Fail(failure))
}

/// The failure of a request that got no answer, and of reading and writing.
pub open spec fn transport_failure() -> Failure {
    Failure { kind: ErrorKind::SourceFetchFailed, code: 0 }
}

/// The failure of a request that was answered with another status than 200.
pub open spec fn status_failure(status: u16) -> Failure {
    Failure { kind: ErrorKind::SourceFetchFailed, code: status as i32 }
}

/// The download after `event`, and the step it asks for next. The body is
/// read chunk by chunk; a chunk is written only if the bytes taken in so far,
/// this chunk included, do not exceed the limit, and else the download fails
/// as too large.
pub open spec fn download_next(state: Download, event: DownloadEvent) -> (
    Download,
    DownloadAction,
) {
    match state.phase {
        DownloadPhase::Finished => (state, DownloadAction::Succeed),
        DownloadPhase::Failed(failure) => (state, DownloadAction::Fail(failure)),
        DownloadPhase::Created => match event {
            DownloadEvent::Start => (
                Download { phase: DownloadPhase::Requesting, ..state },
                DownloadAction::Get,
            ),
            _ => abort(state, transport_failure()),
        },
        DownloadPhase::Requesting => match event {
            DownloadEvent::Response(status) => if status == OK {
                (Download { phase: DownloadPhase::Creating, ..state }, DownloadAction::CreateFile)
            } else {
                abort(state, status_failure(status))
            },
            _ => abort(state, transport_failure()),
        },
        DownloadPhase::Creating => match event {
            DownloadEvent::Done => (
                Download { phase: DownloadPhase::Reading, ..state },
                DownloadAction::Read(CHUNK_SIZE),
            ),
            _ => abort(state, transport_failure()),
        },
        DownloadPhase::Reading => match event {
            DownloadEvent::Chunk(len) => if len == 0 {
                (Download { phase: DownloadPhase::Finished, ..state }, DownloadAction::Succeed)
            } else if state.received + len > state.limit {
                abort(state, Failure { kind: ErrorKind::SourceTooLarge, code: 0 })
            } else {
                (
                    Download {
                        phase: DownloadPhase::Writing,
                        received: (state.received + len) as usize,
                        limit: state.limit,
                    },
                    DownloadAction::Write,
                )
            },
            _ => abort(state, transport_failure()),
        },
        DownloadPhase::Writing => match event {
            DownloadEvent::Done => (
                Download { phase: DownloadPhase::Reading, ..state },
                DownloadAction::Read(CHUNK_SIZE),
            ),
            _ => abort(state, transport_failure()),
        },
    }
}

fn aborting(state: Download, failure: Failure) -> (out: (Download, DownloadAction))
    ensures
        out == abort(state, failure),
{
    (
        Download { phase: DownloadPhase::Failed(failure), received: state.received, limit: state.limit },
        DownloadAction::Fail(failure),
    )
}

fn moving(state: Download, phase: DownloadPhase, action: DownloadAction) -> (out: (
    Download,
    DownloadAction,
))
    ensures
        out == (Download { phase, ..state }, action),
{
    (Download { phase, received: state.received, limit: state.limit }, action)
}

impl Download {
    /// A download that may take in `limit` bytes. Its first event is
    /// `DownloadEvent::Start`.
    pub fn new(limit: usize) -> (state: Download)
        ensures
            state == created(limit),
    {
        Download { phase: DownloadPhase::Created, received: 0, limit }
    }

    /// Whether the download is over.
    pub fn is_over(&self) -> (over: bool)
        ensures
            over == (self.phase is Finished || self.phase is Failed),
    {
        match self.phase {
            DownloadPhase::Finished => true,
            DownloadPhase::Failed(_) => true,
            _ => false,
        }
    }
}

/// Drives the download of a job's source: takes in how the last step ended
/// and says which step comes next.
pub fn download_file(state: Download, event: DownloadEvent) -> (out: (Download, DownloadAction))
    ensures
        out == download_next(state, event),
{
    let transport = Failure::new(ErrorKind::SourceFetchFailed);
    match state.phase {
        DownloadPhase::Finished => (state, DownloadAction::Succeed),
        DownloadPhase::Failed(failure) => (state, DownloadAction::Fail(failure)),
        DownloadPhase::Created => match event {
            DownloadEvent::Start => moving(state, DownloadPhase::Requesting, DownloadAction::Get),
            _ => aborting(state, transport),
        },
        DownloadPhase::Requesting => match event {
            DownloadEvent::Response(status) => {
                if status == OK {
                    moving(state, DownloadPhase::Creating, DownloadAction::CreateFile)
                } else {
                    aborting(
                        state,
                        Failure { kind: ErrorKind::SourceFetchFailed, code: status as i32 },
                    )
                }
            },
            _ => aborting(state, transport),
        },
        DownloadPhase::Creating => match event {
            DownloadEvent::Done => moving(
                state,
                DownloadPhase::Reading,
                DownloadAction::Read(CHUNK_SIZE),
            ),
            _ => aborting(state, transport),
        },
        DownloadPhase::Reading => match event {
            DownloadEvent::Chunk(len) => {
                if len == 0 {
                    moving(state, DownloadPhase::Finished, DownloadAction::Succeed)
                } else if len > state.limit || state.received > state.limit - len {
                    aborting(state, Failure::new(ErrorKind::SourceTooLarge))
                } else {
                    (
                        Download {
                            phase: DownloadPhase::Writing,
                            received: state.received + len,
                            limit: state.limit,
                        },
                        DownloadAction::Write,
                    )
                }
            },
            _ => aborting(state, transport),
        },
        DownloadPhase::Writing => match event {
            DownloadEvent::Done => moving(
                state,
                DownloadPhase::Reading,
                DownloadAction::Read(CHUNK_SIZE),
            ),
            _ => aborting(state, transport),
        },
    }
}

/// The state of a download of limit `limit` after `events`.
pub open spec fn download_run(limit: usize, events: Seq<DownloadEvent>) -> Download
    decreases events.len(),
{
    if events.len() == 0 {
        created(limit)
    } else {
        download_next(download_run(limit, events.drop_last()), events.last()).0
    }
}

/// The sum of the chunk lengths among `events`.
pub open spec fn bytes_read(events: Seq<DownloadEvent>) -> nat
    decreases events.len(),
{
    if events.len() == 0 {
        0
    } else {
        bytes_read(events.drop_last()) + match events.last() {
            DownloadEvent::Chunk(len) => len as nat,
            _ => 0nat,
        }
    }
}

/// A download never takes in more than it may: whatever the worker reports,
/// the bytes accepted so far stay within the limit, and the limit stays what
/// it was.
pub proof fn download_stays_within_limit(limit: usize, events: Seq<DownloadEvent>)
    ensures
        download_run(limit, events).received <= limit,
        download_run(limit, events).limit == limit,
    decreases events.len(),
{
    if events.len() > 0 {
        download_stays_within_limit(limit, events.drop_last());
    }
}

/// While a download is under way it has counted every chunk: the bytes taken
/// in are the sum of the chunk lengths reported so far.
pub proof fn download_counts_every_chunk(limit: usize, events: Seq<DownloadEvent>)
    requires
        !(download_run(limit, events).phase is Finished),
        !(download_run(limit, events).phase is Failed),
    ensures
        download_run(limit, events).received == bytes_read(events),
    decreases events.len(),
{
    if events.len() > 0 {
        let before = download_run(limit, events.drop_last());
        if !(before.phase is Finished) && !(before.phase is Failed) {
            download_counts_every_chunk(limit, events.drop_last());
        }
    }
}

/// A chunk that would take the body over the limit is never written: the
/// download fails as too large instead, and stays failed.
pub proof fn oversized_body_is_refused(state: Download, len: usize)
    requires
        state.phase is Reading,
        state.received + len > state.limit,
        len > 0,
    ensures
        download_next(state, DownloadEvent::Chunk(len)) == abort(
            state,
            Failure { kind: ErrorKind::SourceTooLarge, code: 0 },
        ),
{
}

/// Any status but 200 fails the download with that status.
pub proof fn other_status_is_refused(state: Download, status: u16)
    requires
        state.phase is Requesting,
        status != OK,
    ensures
        download_next(state, DownloadEvent::Response(status)) == abort(
            state,
            Failure { kind: ErrorKind::SourceFetchFailed, code: status as i32 },
        ),
{
}

} // verus!
