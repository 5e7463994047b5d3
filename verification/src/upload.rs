//! The upload as a state machine. Each pending step names the outside work
//! that the caller does next; the caller reports what happened as an event,
//! and `advance` decides how the upload goes on.

use crate::config::{text_of, Config, ConfigView};
use crate::error::StoreError;
use crate::guard::{authorize, authorized};
use crate::path::{resolve, resolve_spec, Target, TargetView};
use vstd::prelude::*;

verus! {

/// What the client sent before the body: header, query and the first field's name.
#[derive(Clone, Debug, PartialEq, Eq)]
pub struct UploadRequest {
    /// The bearer token, if one was presented.
    pub token: Option<String>,
    /// The `directory` option.
    pub directory: Option<String>,
    /// The `safe` option: refuse to replace an existing object.
    pub safe: bool,
    /// The file name of the body's first field; `None` where the body has no
    /// field or its first field declares no file name.
    pub file_name: Option<String>,
}

/// The mathematical value of an [`UploadRequest`].
pub struct RequestView {
    pub token: Option<Seq<char>>,
    pub directory: Option<Seq<char>>,
    pub safe: bool,
    pub file_name: Option<Seq<char>>,
}

impl View for UploadRequest {
    type V = RequestView;

    open spec fn view(&self) -> RequestView {
        RequestView {
            token: text_of(self.token),
            directory: text_of(self.directory),
            safe: self.safe,
            file_name: text_of(self.file_name),
        }
    }
}

/// An upload under way: where it goes, what has arrived, and the cap.
#[derive(Clone, Debug, PartialEq, Eq)]
pub struct Upload {
    /// Where the object will be stored.
    pub target: Target,
    /// The bytes received so far, in arrival order.
    pub buffer: Vec<u8>,
    /// The largest total that is accepted.
    pub cap: u64,
}

/// The mathematical value of an [`Upload`].
pub struct UploadView {
    pub target: TargetView,
    pub buffer: Seq<u8>,
    pub cap: u64,
}

impl View for Upload {
    type V = UploadView;

    open spec fn view(&self) -> UploadView {
        UploadView { target: self.target@, buffer: self.buffer@, cap: self.cap }
    }
}

/// The state of an upload, which is also the work that the caller owes next.
#[derive(Debug, PartialEq, Eq)]
pub enum UploadStep {
    /// Find out whether anything exists at `target.absolute`; report `Exists`.
    CheckExists(Upload),
    /// Read the next chunk of the field; report `Chunk`, `ChunkFailed` or `EndOfBody`.
    ReadChunk(Upload),
    /// Create the missing parent directories and write `buffer` whole to
    /// `target.absolute`; report `Written`.
    Write(Upload),
    /// The upload is over: answer with the stored target or with the error.
    Done(Result<Target, StoreError>),
}

/// The mathematical value of an [`UploadStep`].
pub enum StepView {
    CheckExists(UploadView),
    ReadChunk(UploadView),
    Write(UploadView),
    Done(Result<TargetView, StoreError>),
}

impl View for UploadStep {
    type V = StepView;

    open spec fn view(&self) -> StepView {
        match *self {
            UploadStep::CheckExists(u) => StepView::CheckExists(u@),
            UploadStep::ReadChunk(u) => StepView::ReadChunk(u@),
            UploadStep::Write(u) => StepView::Write(u@),
            UploadStep::Done(r) => StepView::Done(crate::path::outcome_view(r)),
        }
    }
}

/// What the caller reports after doing the work of a step.
#[derive(Clone, Debug, PartialEq, Eq)]
pub enum UploadEvent {
    /// Whether the target exists.
    Exists(bool),
    /// The next chunk of the body.
    Chunk(Vec<u8>),
    /// Reading the next chunk failed.
    ChunkFailed,
    /// The field has no more chunks.
    EndOfBody,
    /// Whether the whole buffer was written.
    Written(bool),
}

/// The mathematical value of an [`UploadEvent`].
pub enum EventView {
    Exists(bool),
    Chunk(Seq<u8>),
    ChunkFailed,
    EndOfBody,
    Written(bool),
}

impl View for UploadEvent {
    type V = EventView;

    open spec fn view(&self) -> EventView {
        match *self {
            UploadEvent::Exists(b) => EventView::Exists(b),
            UploadEvent::Chunk(c) => EventView::Chunk(c@),
            UploadEvent::ChunkFailed => EventView::ChunkFailed,
            UploadEvent::EndOfBody => EventView::EndOfBody,
            UploadEvent::Written(b) => EventView::Written(b),
        }
    }
}

/// The total size of a body's chunks.
pub open spec fn total_len(chunks: Seq<Seq<u8>>) -> nat
    decreases chunks.len(),
{
    if chunks.len() == 0 {
        0
    } else {
        chunks[0].len() + total_len(chunks.drop_first())
    }
}

/// The chunks of a body, one after the other.
pub open spec fn joined(chunks: Seq<Seq<u8>>) -> Seq<u8>
    decreases chunks.len(),
{
    if chunks.len() == 0 {
        Seq::empty()
    } else {
        chunks[0] + joined(chunks.drop_first())
    }
}

/// The chunks of a body that is held in memory, each as its bytes.
pub open spec fn chunk_views(chunks: Seq<Vec<u8>>) -> Seq<Seq<u8>> {
    chunks.map_values(|c: Vec<u8>| c@)
}

/// What [`ingest`] returns: the whole body in arrival order where its total
/// size is within the cap, `PayloadTooLarge` where it is not.
pub open spec fn ingest_spec(chunks: Seq<Seq<u8>>, cap: u64) -> Result<Seq<u8>, StoreError> {
    if total_len(chunks) <= cap {
        Ok(joined(chunks))
    } else {
        Err(StoreError::PayloadTooLarge)
    }
}

/// A chunk more at the end adds its size to the total and its bytes to the end.
pub proof fn lemma_body_push(chunks: Seq<Seq<u8>>, last: Seq<u8>)
    ensures
        total_len(chunks.push(last)) == total_len(chunks) + last.len(),
        joined(chunks.push(last)) == joined(chunks) + last,
    decreases chunks.len(),
{
    reveal_with_fuel(total_len, 2);
    reveal_with_fuel(joined, 2);
    let longer = chunks.push(last);
    if chunks.len() == 0 {
        assert(longer.drop_first() =~= chunks);
    } else {
        assert(longer.drop_first() =~= chunks.drop_first().push(last));
        lemma_body_push(chunks.drop_first(), last);
    }
    assert(joined(longer) =~= joined(chunks) + last);
}

/// The first `n` chunks of a body are no larger than the whole body.
pub proof fn lemma_prefix_total(chunks: Seq<Seq<u8>>, n: int)
    requires
        0 <= n <= chunks.len(),
    ensures
        total_len(chunks.take(n)) <= total_len(chunks),
    decreases chunks.len() - n,
{
    if n == chunks.len() {
        assert(chunks.take(n) =~= chunks);
    } else {
        lemma_prefix_total(chunks, n + 1);
        assert(chunks.take(n + 1) =~= chunks.take(n).push(chunks[n]));
        lemma_body_push(chunks.take(n), chunks[n]);
    }
}

/// Gathers a body whose chunks are all at hand, in order, under the cap. The
/// running total is tested after each chunk, and the first chunk that takes
/// it beyond the cap ends the work: what was gathered is dropped.
pub fn ingest(chunks: &Vec<Vec<u8>>, cap: u64) -> (r: Result<Vec<u8>, StoreError>)
    ensures
        crate::store::bytes_view(r) == ingest_spec(chunk_views(chunks@), cap),
{
    let ghost body = chunk_views(chunks@);
    let mut buffer: Vec<u8> = Vec::new();
    let mut i: usize = 0;
    proof {
        assert(body.take(0) =~= Seq::<Seq<u8>>::empty());
    }
    while i < chunks.len()
        invariant
            i <= chunks.len(),
            body == chunk_views(chunks@),
            buffer@ == joined(body.take(i as int)),
            buffer@.len() == total_len(body.take(i as int)),
            buffer@.len() <= cap,
        decreases chunks.len() - i,
    {
        let chunk = &chunks[i];
        let held: u64 = buffer.len() as u64;
        let more: u64 = chunk.len() as u64;
        proof {
            assert(body.take(i + 1) =~= body.take(i as int).push(chunk@));
            lemma_body_push(body.take(i as int), chunk@);
            lemma_prefix_total(body, i + 1);
        }
        if more > cap - held {
            return Err(StoreError::PayloadTooLarge);
        }
        let ghost before = buffer@;
        buffer.extend_from_slice(chunk.as_slice());
        proof {
            assert(buffer@ =~= before + chunk@);
        }
        i += 1;
    }
    proof {
        assert(body.take(i as int) =~= body);
    }
    Ok(buffer)
}

/// The first step of an upload.
///
/// The token is judged first, whatever else the request holds. Then the body
/// must name a file and the directory must resolve. With `safe` set the
/// target's existence is asked before a single byte of the body is read.
pub open spec fn begin_spec(cfg: ConfigView, req: RequestView) -> StepView {
    if !authorized(cfg.token, req.token) {
        StepView::Done(Err(StoreError::Unauthorized))
    } else {
        match req.file_name {
            None => StepView::Done(Err(StoreError::BadRequest)),
            Some(name) => match resolve_spec(cfg.root, req.directory, name) {
                Err(e) => StepView::Done(Err(e)),
                Ok(target) => {
                    let upload = UploadView { target, buffer: Seq::empty(), cap: cfg.max_upload };
                    if req.safe {
                        StepView::CheckExists(upload)
                    } else {
                        StepView::ReadChunk(upload)
                    }
                },
            },
        }
    }
}

/// The step that follows `step` once `event` is reported.
///
/// A chunk is appended unless the total would pass the cap; then the upload
/// ends with `PayloadTooLarge` and the buffer is dropped, so nothing of it is
/// ever written. A failed read or write ends it with `InternalError`, and so
/// does an event that does not answer the pending step. A finished upload
/// stays as it is.
pub open spec fn advance_spec(step: StepView, event: EventView) -> StepView {
    match (step, event) {
        (StepView::Done(r), _) => StepView::Done(r),
        (StepView::CheckExists(u), EventView::Exists(found)) => if found {
            StepView::Done(Err(StoreError::Conflict))
        } else {
            StepView::ReadChunk(u)
        },
        (StepView::ReadChunk(u), EventView::Chunk(c)) => if u.buffer.len() + c.len() > u.cap {
            StepView::Done(Err(StoreError::PayloadTooLarge))
        } else {
            StepView::ReadChunk(UploadView { target: u.target, buffer: u.buffer + c, cap: u.cap })
        },
        (StepView::ReadChunk(u), EventView::EndOfBody) => StepView::Write(u),
        (StepView::Write(u), EventView::Written(done)) => if done {
            StepView::Done(Ok(u.target))
        } else {
            StepView::Done(Err(StoreError::InternalError))
        },
        _ => StepView::Done(Err(StoreError::InternalError)),
    }
}

/// Opens an upload: judges the request and returns the first step.
pub fn begin(cfg: &Config, req: UploadRequest) -> (step: UploadStep)
    ensures
        step@ == begin_spec(cfg@, req@),
{
    if authorize(&cfg.token, &req.token).is_err() {
        return UploadStep::Done(Err(StoreError::Unauthorized));
    }
    let name = match &req.file_name {
        None => {
            return UploadStep::Done(Err(StoreError::BadRequest));
        },
        Some(name) => name,
    };
    match resolve(cfg.root.as_str(), &req.directory, name.as_str()) {
        Err(e) => UploadStep::Done(Err(e)),
        Ok(target) => {
            let upload = Upload { target, buffer: Vec::new(), cap: cfg.max_upload };
            if req.safe {
                UploadStep::CheckExists(upload)
            } else {
                UploadStep::ReadChunk(upload)
            }
        },
    }
}

/// Takes a chunk into the upload, or ends the upload where the total would
/// pass the cap.
fn accept(upload: Upload, chunk: Vec<u8>) -> (step: UploadStep)
    ensures
        step@ == advance_spec(StepView::ReadChunk(upload@), EventView::Chunk(chunk@)),
{
    let held: u64 = upload.buffer.len() as u64;
    let more: u64 = chunk.len() as u64;
    if more > upload.cap || held > upload.cap - more {
        return UploadStep::Done(Err(StoreError::PayloadTooLarge));
    }
    let Upload { target, buffer, cap } = upload;
    let mut buffer = buffer;
    let ghost before = buffer@;
    buffer.extend_from_slice(chunk.as_slice());
    proof {
        assert(buffer@ =~= before + chunk@);
    }
    UploadStep::ReadChunk(Upload { target, buffer, cap })
}

/// Decides how the upload goes on after the caller reports `event`.
pub fn advance(step: UploadStep, event: UploadEvent) -> (next: UploadStep)
    ensures
        next@ == advance_spec(step@, event@),
{
    match step {
        UploadStep::Done(r) => UploadStep::Done(r),
        UploadStep::CheckExists(u) => match event {
            UploadEvent::Exists(found) => {
                if found {
                    UploadStep::Done(Err(StoreError::Conflict))
                } else {
                    UploadStep::ReadChunk(u)
                }
            },
            _ => UploadStep::Done(Err(StoreError::InternalError)),
        },
        UploadStep::ReadChunk(u) => match event {
            UploadEvent::Chunk(c) => accept(u, c),
            UploadEvent::EndOfBody => UploadStep::Write(u),
            _ => UploadStep::Done(Err(StoreError::InternalError)),
        },
        UploadStep::Write(u) => match event {
            UploadEvent::Written(done) => {
                if done {
                    UploadStep::Done(Ok(u.target))
                } else {
                    UploadStep::Done(Err(StoreError::InternalError))
                }
            },
            _ => UploadStep::Done(Err(StoreError::InternalError)),
        },
    }
}

} // verus!
