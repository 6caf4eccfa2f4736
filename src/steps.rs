//! The decisions a backend takes between its I/O calls, as functions from
//! what a call reported to the next step or the final result. Every backend
//! runs its operations through these, so each one never overwrites a blob,
//! tells "not found" apart from every other failure, and maps its failures
//! into the same taxonomy.

use crate::error::StorageError;
use crate::storage::blob_write_post;
use crate::storage::read_post;
use crate::storage::Objects;
use vstd::prelude::*;

verus! {

/// A failure reported by a backend's own I/O, with its description.
#[derive(Debug)]
pub enum Failure {
    /// Local disk.
    Io(String),
    /// Network, service, permissions and the like.
    Service(String),
}

/// The error a failure is reported as.
pub open spec fn failure_error(f: Failure) -> StorageError {
    match f {
        Failure::Io(m) => StorageError::Io(m),
        Failure::Service(m) => StorageError::Generic(m),
    }
}

impl Failure {
    pub fn into_error(self) -> (r: StorageError)
        ensures
            r == failure_error(self),
    {
        match self {
            Failure::Io(m) => StorageError::Io(m),
            Failure::Service(m) => StorageError::Generic(m),
        }
    }
}

/// What an existence probe of one object reported.
#[derive(Debug)]
pub enum Probe {
    Present,
    Absent,
    Failed(Failure),
}

/// The answer to an existence query.
pub open spec fn probe_answer(p: Probe) -> Result<bool, StorageError> {
    match p {
        Probe::Present => Ok(true),
        Probe::Absent => Ok(false),
        Probe::Failed(f) => Err(failure_error(f)),
    }
}

pub fn probe_result(probe: Probe) -> (r: Result<bool, StorageError>)
    ensures
        r == probe_answer(probe),
{
    match probe {
        Probe::Present => Ok(true),
        Probe::Absent => Ok(false),
        Probe::Failed(f) => Err(f.into_error()),
    }
}

/// The next step of a blob write once the target has been probed.
#[derive(Debug)]
pub enum BlobWriteStep {
    /// Done, with this result.
    Finish(Result<bool, StorageError>),
    /// Write the content to the target.
    Write,
}

/// A present blob is never overwritten; only an absent one is written.
pub open spec fn probe_step(p: Probe) -> BlobWriteStep {
    match p {
        Probe::Present => BlobWriteStep::Finish(Ok(false)),
        Probe::Absent => BlobWriteStep::Write,
        Probe::Failed(f) => BlobWriteStep::Finish(Err(failure_error(f))),
    }
}

pub fn blob_write_after_probe(probe: Probe) -> (r: BlobWriteStep)
    ensures
        r == probe_step(probe),
{
    match probe {
        Probe::Present => BlobWriteStep::Finish(Ok(false)),
        Probe::Absent => BlobWriteStep::Write,
        Probe::Failed(f) => BlobWriteStep::Finish(Err(f.into_error())),
    }
}

/// The result of a blob write once the content has been written, or not.
pub open spec fn put_answer(put: Result<(), Failure>) -> Result<bool, StorageError> {
    match put {
        Ok(()) => Ok(true),
        Err(f) => Err(failure_error(f)),
    }
}

pub fn blob_write_after_put(put: Result<(), Failure>) -> (r: Result<bool, StorageError>)
    ensures
        r == put_answer(put),
{
    match put {
        Ok(()) => Ok(true),
        Err(f) => Err(f.into_error()),
    }
}

/// The result of an operation with nothing to return: a manifest write, a
/// deletion.
pub open spec fn completion_answer(done: Result<(), Failure>) -> Result<(), StorageError> {
    match done {
        Ok(()) => Ok(()),
        Err(f) => Err(failure_error(f)),
    }
}

pub fn completion_result(done: Result<(), Failure>) -> (r: Result<(), StorageError>)
    ensures
        r == completion_answer(done),
{
    match done {
        Ok(()) => Ok(()),
        Err(f) => Err(f.into_error()),
    }
}

/// What a read of one object reported.
#[derive(Debug)]
pub enum Fetched {
    Found(Vec<u8>),
    Missing,
    Failed(Failure),
}

/// The result of a read of `path` that reported `f`.
pub open spec fn read_answer(path: Seq<char>, f: Fetched, r: Result<Vec<u8>, StorageError>) -> bool {
    match f {
        Fetched::Found(bytes) => r == Ok::<Vec<u8>, StorageError>(bytes),
        Fetched::Missing => r is Err && r->Err_0 is NotFound && r->Err_0->NotFound_0@ == path,
        Fetched::Failed(x) => r == Err::<Vec<u8>, StorageError>(failure_error(x)),
    }
}

/// Bytes for a found object, `NotFound` naming `path` for a missing one, and
/// the failure's own error otherwise, never `NotFound`.
pub fn read_result(path: &str, fetched: Fetched) -> (r: Result<Vec<u8>, StorageError>)
    ensures
        read_answer(path@, fetched, r),
{
    match fetched {
        Fetched::Found(bytes) => Ok(bytes),
        Fetched::Missing => Err(StorageError::NotFound(String::from_str(path))),
        Fetched::Failed(f) => Err(f.into_error()),
    }
}

/// A blob write run by these steps meets the interface's blob-write contract,
/// on any backend whose probe tells the truth about the object and whose
/// write stores the content when it succeeds and nothing when it fails.
pub proof fn law_stepped_blob_write(
    before: Objects,
    after: Objects,
    key: Seq<char>,
    content: Seq<u8>,
    probe: Probe,
    put: Result<(), Failure>,
    r: Result<bool, StorageError>,
)
    requires
        probe is Present ==> before.contains_key(key),
        probe is Absent ==> !before.contains_key(key),
        match probe_step(probe) {
            BlobWriteStep::Finish(done) => r == done && after == before,
            BlobWriteStep::Write => {
                &&& r == put_answer(put)
                &&& put is Ok ==> after == before.insert(key, content)
                &&& put is Err ==> after == before
            },
        },
    ensures
        blob_write_post(before, after, key, content, r),
{
}

/// A read run by these steps meets the interface's read contract, on any
/// backend whose fetch tells the truth about the object.
pub proof fn law_stepped_read(
    objects: Objects,
    path: Seq<char>,
    fetched: Fetched,
    r: Result<Vec<u8>, StorageError>,
)
    requires
        fetched is Found ==> objects.contains_key(path) && fetched->Found_0@ == objects[path],
        fetched is Missing ==> !objects.contains_key(path),
        read_answer(path, fetched, r),
    ensures
        read_post(objects, path, r),
{
}

/// An existence query run by these steps answers truly, on any backend whose
/// probe tells the truth about the object.
pub proof fn law_stepped_probe(objects: Objects, path: Seq<char>, probe: Probe)
    requires
        probe is Present ==> objects.contains_key(path),
        probe is Absent ==> !objects.contains_key(path),
    ensures
        probe_answer(probe) is Ok ==> probe_answer(probe)->Ok_0 == objects.contains_key(path),
        probe_answer(probe) is Err ==> !(probe_answer(probe)->Err_0 is NotFound),
{
}

} // verus!
