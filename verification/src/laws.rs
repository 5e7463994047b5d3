//! What holds of whole operations. An upload is run to its end against a
//! storage that holds a given map of objects and never fails; the laws say
//! what the caller is answered and what the storage holds afterwards.

use crate::config::ConfigView;
use crate::content::{guessed_content_type, serve_spec, ServedView};
use crate::error::StoreError;
use crate::guard::authorized;
use crate::path::{logical_directory, resolve_spec, storage_path_spec, TargetView, SEPARATOR};
use crate::store::{after_remove, read_at, remove_at, removed_spec};
use crate::upload::{
    advance_spec, begin_spec, ingest_spec, joined, total_len, EventView, RequestView, StepView,
    UploadView,
};
use vstd::prelude::*;

verus! {

/// The number of reports that a step may still need besides the chunks.
pub open spec fn pending_work(step: StepView) -> nat {
    match step {
        StepView::CheckExists(_) => 3,
        StepView::ReadChunk(_) => 2,
        StepView::Write(_) => 1,
        StepView::Done(_) => 0,
    }
}

/// Runs `step` to its end: each pending step is answered from `objects` and
/// from `chunks`, the rest of the body, and a write puts the buffer at the
/// target. Gives the objects held afterwards and the answer.
pub open spec fn run(objects: Map<Seq<char>, Seq<u8>>, step: StepView, chunks: Seq<Seq<u8>>) -> (
    Map<Seq<char>, Seq<u8>>,
    Result<TargetView, StoreError>,
)
    decreases chunks.len(), pending_work(step),
{
    match step {
        StepView::Done(r) => (objects, r),
        StepView::CheckExists(u) => run(
            objects,
            advance_spec(step, EventView::Exists(objects.contains_key(u.target.absolute))),
            chunks,
        ),
        StepView::ReadChunk(_) => if chunks.len() == 0 {
            run(objects, advance_spec(step, EventView::EndOfBody), chunks)
        } else {
            run(objects, advance_spec(step, EventView::Chunk(chunks[0])), chunks.drop_first())
        },
        StepView::Write(u) => run(
            objects.insert(u.target.absolute, u.buffer),
            advance_spec(step, EventView::Written(true)),
            chunks,
        ),
    }
}

/// A whole upload: the request is judged, then run with its body.
pub open spec fn upload_spec(
    objects: Map<Seq<char>, Seq<u8>>,
    cfg: ConfigView,
    req: RequestView,
    chunks: Seq<Seq<u8>>,
) -> (Map<Seq<char>, Seq<u8>>, Result<TargetView, StoreError>) {
    run(objects, begin_spec(cfg, req), chunks)
}

/// A whole download of the object that `name` gives.
pub open spec fn download_spec(
    objects: Map<Seq<char>, Seq<u8>>,
    cfg: ConfigView,
    name: Seq<char>,
) -> Result<ServedView, StoreError> {
    serve_spec(guessed_content_type(name), read_at(objects, storage_path_spec(cfg.root, name)))
}

/// A whole deletion of the object that `name` gives.
pub open spec fn delete_spec(
    objects: Map<Seq<char>, Seq<u8>>,
    cfg: ConfigView,
    name: Seq<char>,
) -> (Map<Seq<char>, Seq<u8>>, Result<(), StoreError>) {
    let path = storage_path_spec(cfg.root, name);
    (after_remove(objects, path), removed_spec(remove_at(objects, path)))
}

/// Whether the request passes the guard, names a file and gives a directory
/// that resolves.
pub open spec fn well_formed(cfg: ConfigView, req: RequestView) -> bool {
    &&& authorized(cfg.token, req.token)
    &&& req.file_name is Some
    &&& logical_directory(req.directory) is Some
}

/// The target of a well-formed request.
pub open spec fn target_of(cfg: ConfigView, req: RequestView) -> TargetView {
    resolve_spec(cfg.root, req.directory, req.file_name->0)->Ok_0
}

/// Whether safe mode blocks the request: it asks for safe mode and an object
/// already exists at its target.
pub open spec fn blocked(objects: Map<Seq<char>, Seq<u8>>, cfg: ConfigView, req: RequestView) -> bool {
    req.safe && objects.contains_key(target_of(cfg, req).absolute)
}

/// Reading a body from a buffer that is within the cap: if the buffer and the
/// rest of the body together stay within the cap, all of it is written to the
/// target in arrival order; if not, the answer is `PayloadTooLarge` and the
/// objects are as they were.
pub proof fn lemma_run_body(objects: Map<Seq<char>, Seq<u8>>, u: UploadView, chunks: Seq<Seq<u8>>)
    requires
        u.buffer.len() <= u.cap,
    ensures
        u.buffer.len() + total_len(chunks) <= u.cap ==> run(objects, StepView::ReadChunk(u), chunks)
            == (objects.insert(u.target.absolute, u.buffer + joined(chunks)), Ok::<
            TargetView,
            StoreError,
        >(u.target)),
        u.buffer.len() + total_len(chunks) > u.cap ==> run(objects, StepView::ReadChunk(u), chunks)
            == (objects, Err::<TargetView, StoreError>(StoreError::PayloadTooLarge)),
    decreases chunks.len(),
{
    reveal_with_fuel(run, 3);
    if chunks.len() == 0 {
        assert(u.buffer + joined(chunks) =~= u.buffer);
    } else {
        let c = chunks[0];
        if u.buffer.len() + c.len() <= u.cap {
            let next = UploadView { target: u.target, buffer: u.buffer + c, cap: u.cap };
            lemma_run_body(objects, next, chunks.drop_first());
            assert((u.buffer + c) + joined(chunks.drop_first()) =~= u.buffer + joined(chunks));
        }
    }
}

/// The machine gathers what `ingest` gathers: an upload that starts reading
/// with an empty buffer writes exactly the body that `ingest` returns for the
/// same chunks and cap, and where `ingest` fails it gives the same error and
/// writes nothing.
pub proof fn law_machine_ingests(
    objects: Map<Seq<char>, Seq<u8>>,
    target: TargetView,
    cap: u64,
    chunks: Seq<Seq<u8>>,
)
    ensures
        ({
            let u = UploadView { target, buffer: Seq::empty(), cap };
            run(objects, StepView::ReadChunk(u), chunks) == match ingest_spec(chunks, cap) {
                Ok(body) => (objects.insert(target.absolute, body), Ok::<TargetView, StoreError>(target)),
                Err(e) => (objects, Err::<TargetView, StoreError>(e)),
            }
        }),
{
    let u = UploadView { target, buffer: Seq::empty(), cap };
    lemma_run_body(objects, u, chunks);
    assert(Seq::<u8>::empty() + joined(chunks) =~= joined(chunks));
}

/// Whether the buffer of an upload under way is within its cap.
pub open spec fn within_cap(step: StepView) -> bool {
    match step {
        StepView::CheckExists(u) => u.buffer.len() <= u.cap,
        StepView::ReadChunk(u) => u.buffer.len() <= u.cap,
        StepView::Write(u) => u.buffer.len() <= u.cap,
        StepView::Done(_) => true,
    }
}

/// The cap is hard: an upload begins within its cap, and no report takes a
/// step that is within its cap to one that is not. So nothing larger than the
/// cap is ever held, and nothing larger is ever handed out to be written.
pub proof fn law_buffer_within_cap(cfg: ConfigView, req: RequestView, step: StepView, event: EventView)
    ensures
        within_cap(begin_spec(cfg, req)),
        within_cap(step) ==> within_cap(advance_spec(step, event)),
{
}

/// A resolved target lies beneath the root: its storage path is the root
/// followed by its logical path, the logical path begins with a separator,
/// and a download of the logical path without that separator reads the very
/// same storage path.
pub proof fn law_target_beneath_root(root: Seq<char>, directory: Option<Seq<char>>, filename: Seq<char>)
    requires
        logical_directory(directory) is Some,
    ensures
        ({
            let t = resolve_spec(root, directory, filename)->Ok_0;
            &&& resolve_spec(root, directory, filename) is Ok
            &&& t.filename == filename
            &&& t.path == t.directory + filename
            &&& t.absolute == root + t.path
            &&& t.path.len() > 0 && t.path[0] == SEPARATOR
            &&& t.directory.last() == SEPARATOR
            &&& storage_path_spec(root, t.path.drop_first()) == t.absolute
        }),
{
    let t = resolve_spec(root, directory, filename)->Ok_0;
    assert(t.absolute =~= root + t.path);
    assert(storage_path_spec(root, t.path.drop_first()) =~= t.absolute);
}

/// Upload, then download: a well-formed upload that safe mode does not block
/// and whose body stays within the cap is answered with its target, puts
/// exactly the body at the target and changes nothing else; a download of the
/// target's logical path then returns exactly the body.
pub proof fn law_upload_then_download(
    objects: Map<Seq<char>, Seq<u8>>,
    cfg: ConfigView,
    req: RequestView,
    chunks: Seq<Seq<u8>>,
)
    requires
        well_formed(cfg, req),
        !blocked(objects, cfg, req),
        total_len(chunks) <= cfg.max_upload,
    ensures
        ({
            let t = target_of(cfg, req);
            let (after, answer) = upload_spec(objects, cfg, req, chunks);
            let name = t.path.drop_first();
            &&& answer == Ok::<TargetView, StoreError>(t)
            &&& after == objects.insert(t.absolute, joined(chunks))
            &&& download_spec(after, cfg, name) == Ok::<ServedView, StoreError>(
                ServedView {
                    status: crate::content::STATUS_OK,
                    content_type: guessed_content_type(name),
                    body: joined(chunks),
                },
            )
        }),
{
    let t = target_of(cfg, req);
    let u = UploadView { target: t, buffer: Seq::empty(), cap: cfg.max_upload };
    reveal_with_fuel(run, 2);
    lemma_run_body(objects, u, chunks);
    assert(Seq::<u8>::empty() + joined(chunks) =~= joined(chunks));
    law_target_beneath_root(cfg.root, req.directory, req.file_name->0);
}

/// A body beyond the cap: a well-formed upload that safe mode does not block
/// and whose body is larger than the cap is answered `PayloadTooLarge`, and
/// the storage holds what it held before, so no object appears at the target.
pub proof fn law_over_cap_rejected(
    objects: Map<Seq<char>, Seq<u8>>,
    cfg: ConfigView,
    req: RequestView,
    chunks: Seq<Seq<u8>>,
)
    requires
        well_formed(cfg, req),
        !blocked(objects, cfg, req),
        total_len(chunks) > cfg.max_upload,
    ensures
        upload_spec(objects, cfg, req, chunks) == (
            objects,
            Err::<TargetView, StoreError>(StoreError::PayloadTooLarge),
        ),
{
    let u = UploadView { target: target_of(cfg, req), buffer: Seq::empty(), cap: cfg.max_upload };
    reveal_with_fuel(run, 2);
    lemma_run_body(objects, u, chunks);
}

/// A directory with a separator: an authorized upload whose directory holds a
/// separator, and is not the root marker itself, is answered `BadRequest`
/// whatever its body, and the storage is left as it was.
pub proof fn law_separator_rejected(
    objects: Map<Seq<char>, Seq<u8>>,
    cfg: ConfigView,
    req: RequestView,
    chunks: Seq<Seq<u8>>,
)
    requires
        authorized(cfg.token, req.token),
        req.directory is Some,
        req.directory->0.contains(SEPARATOR),
        req.directory->0 != seq![SEPARATOR],
    ensures
        upload_spec(objects, cfg, req, chunks) == (
            objects,
            Err::<TargetView, StoreError>(StoreError::BadRequest),
        ),
{
}

/// A wrong or absent token: the upload is answered `Unauthorized` whatever
/// else the request and its body hold, and the storage is left as it was.
pub proof fn law_unauthorized_rejected(
    objects: Map<Seq<char>, Seq<u8>>,
    cfg: ConfigView,
    req: RequestView,
    chunks: Seq<Seq<u8>>,
)
    requires
        req.token != Some(cfg.token),
    ensures
        upload_spec(objects, cfg, req, chunks) == (
            objects,
            Err::<TargetView, StoreError>(StoreError::Unauthorized),
        ),
{
}

/// Safe mode: a well-formed upload in safe mode to a target that already
/// holds an object is answered `Conflict` whatever its body, and the storage,
/// the existing object included, is left as it was.
pub proof fn law_safe_conflict(
    objects: Map<Seq<char>, Seq<u8>>,
    cfg: ConfigView,
    req: RequestView,
    chunks: Seq<Seq<u8>>,
)
    requires
        well_formed(cfg, req),
        req.safe,
        objects.contains_key(target_of(cfg, req).absolute),
    ensures
        upload_spec(objects, cfg, req, chunks) == (
            objects,
            Err::<TargetView, StoreError>(StoreError::Conflict),
        ),
{
    reveal_with_fuel(run, 2);
}

/// Without safe mode: a well-formed upload within the cap to a target that
/// already holds an object succeeds, and the target then holds the new body.
pub proof fn law_unsafe_overwrites(
    objects: Map<Seq<char>, Seq<u8>>,
    cfg: ConfigView,
    req: RequestView,
    chunks: Seq<Seq<u8>>,
)
    requires
        well_formed(cfg, req),
        !req.safe,
        objects.contains_key(target_of(cfg, req).absolute),
        total_len(chunks) <= cfg.max_upload,
    ensures
        ({
            let t = target_of(cfg, req);
            let (after, answer) = upload_spec(objects, cfg, req, chunks);
            &&& answer == Ok::<TargetView, StoreError>(t)
            &&& after[t.absolute] == joined(chunks)
            &&& after.dom() == objects.dom()
        }),
{
    law_upload_then_download(objects, cfg, req, chunks);
    let t = target_of(cfg, req);
    assert(objects.insert(t.absolute, joined(chunks)).dom() =~= objects.dom());
}

/// A path with no object: a download is answered `NotFound`, and so is a
/// deletion, which leaves the storage as it was.
pub proof fn law_missing_not_found(objects: Map<Seq<char>, Seq<u8>>, cfg: ConfigView, name: Seq<char>)
    requires
        !objects.contains_key(storage_path_spec(cfg.root, name)),
    ensures
        download_spec(objects, cfg, name) == Err::<ServedView, StoreError>(StoreError::NotFound),
        delete_spec(objects, cfg, name) == (objects, Err::<(), StoreError>(StoreError::NotFound)),
{
    assert(objects.remove(storage_path_spec(cfg.root, name)) =~= objects);
}

/// Deleting twice: after one deletion of a name, whatever it was answered, a
/// second one is answered `NotFound`, and so is a download.
pub proof fn law_delete_twice(objects: Map<Seq<char>, Seq<u8>>, cfg: ConfigView, name: Seq<char>)
    ensures
        ({
            let (after, first) = delete_spec(objects, cfg, name);
            &&& first is Ok <==> objects.contains_key(storage_path_spec(cfg.root, name))
            &&& delete_spec(after, cfg, name).1 == Err::<(), StoreError>(StoreError::NotFound)
            &&& download_spec(after, cfg, name) == Err::<ServedView, StoreError>(
                StoreError::NotFound,
            )
        }),
{
}

} // verus!
