//! What the storage reports back, how that maps to the store's errors, and a
//! mathematical model of the storage itself for stating what a whole
//! operation does.

use crate::error::StoreError;
use vstd::prelude::*;

verus! {

/// What reading a storage path gave.
#[derive(Clone, Debug, PartialEq, Eq)]
pub enum ReadOutcome {
    /// The object's bytes.
    Found(Vec<u8>),
    /// Nothing exists at the path.
    Missing,
    /// The storage failed in any other way.
    Failed,
}

/// The mathematical value of a [`ReadOutcome`].
pub enum ReadView {
    Found(Seq<u8>),
    Missing,
    Failed,
}

impl View for ReadOutcome {
    type V = ReadView;

    open spec fn view(&self) -> ReadView {
        match *self {
            ReadOutcome::Found(b) => ReadView::Found(b@),
            ReadOutcome::Missing => ReadView::Missing,
            ReadOutcome::Failed => ReadView::Failed,
        }
    }
}

/// What removing a storage path gave.
#[derive(Clone, Copy, Debug, PartialEq, Eq, Structural)]
pub enum RemoveOutcome {
    /// The object is gone.
    Removed,
    /// Nothing existed at the path.
    Missing,
    /// The storage failed in any other way.
    Failed,
}

/// The bytes of a read, or the error that reports why there are none.
pub open spec fn fetched_spec(outcome: ReadView) -> Result<Seq<u8>, StoreError> {
    match outcome {
        ReadView::Found(b) => Ok(b),
        ReadView::Missing => Err(StoreError::NotFound),
        ReadView::Failed => Err(StoreError::InternalError),
    }
}

/// The result of a deletion.
pub open spec fn removed_spec(outcome: RemoveOutcome) -> Result<(), StoreError> {
    match outcome {
        RemoveOutcome::Removed => Ok(()),
        RemoveOutcome::Missing => Err(StoreError::NotFound),
        RemoveOutcome::Failed => Err(StoreError::InternalError),
    }
}

/// The view of a read's result.
pub open spec fn bytes_view(r: Result<Vec<u8>, StoreError>) -> Result<Seq<u8>, StoreError> {
    match r {
        Ok(b) => Ok(b@),
        Err(e) => Err(e),
    }
}

/// Maps a read to its bytes: a missing object is `NotFound`, any other
/// failure `InternalError`.
pub fn fetched(outcome: ReadOutcome) -> (r: Result<Vec<u8>, StoreError>)
    ensures
        bytes_view(r) == fetched_spec(outcome@),
{
    match outcome {
        ReadOutcome::Found(b) => Ok(b),
        ReadOutcome::Missing => Err(StoreError::NotFound),
        ReadOutcome::Failed => Err(StoreError::InternalError),
    }
}

/// Maps a deletion to its result: a missing object is `NotFound`, any other
/// failure `InternalError`.
pub fn removed(outcome: RemoveOutcome) -> (r: Result<(), StoreError>)
    ensures
        r == removed_spec(outcome),
{
    match outcome {
        RemoveOutcome::Removed => Ok(()),
        RemoveOutcome::Missing => Err(StoreError::NotFound),
        RemoveOutcome::Failed => Err(StoreError::InternalError),
    }
}

/// What a storage that holds exactly `objects`, and never fails, gives when
/// `path` is read.
pub open spec fn read_at(objects: Map<Seq<char>, Seq<u8>>, path: Seq<char>) -> ReadView {
    if objects.contains_key(path) {
        ReadView::Found(objects[path])
    } else {
        ReadView::Missing
    }
}

/// What such a storage gives when `path` is removed.
pub open spec fn remove_at(objects: Map<Seq<char>, Seq<u8>>, path: Seq<char>) -> RemoveOutcome {
    if objects.contains_key(path) {
        RemoveOutcome::Removed
    } else {
        RemoveOutcome::Missing
    }
}

/// What such a storage holds after `path` is removed.
pub open spec fn after_remove(objects: Map<Seq<char>, Seq<u8>>, path: Seq<char>) -> Map<
    Seq<char>,
    Seq<u8>,
> {
    objects.remove(path)
}

} // verus!
