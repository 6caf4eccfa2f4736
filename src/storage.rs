//! The storage capability interface that every backend provides, stated over
//! the map from object path to stored bytes.

use crate::error::joined;
use crate::error::StorageError;
use vstd::prelude::*;

verus! {

/// What a backend holds: object path to stored bytes.
pub type Objects = Map<Seq<char>, Seq<u8>>;

/// The path under which the manifest of `version` is stored.
pub open spec fn manifest_path_of(version: Seq<char>) -> Seq<char> {
    "manifests/"@ + version
}

/// The path under which the manifest of `version` is stored.
pub fn manifest_path(version: &str) -> (r: String)
    ensures
        r@ == manifest_path_of(version@),
{
    joined("manifests/", version)
}

/// The bytes of a chunked payload, in order.
pub open spec fn concat_chunks(chunks: Seq<Vec<u8>>) -> Seq<u8>
    decreases chunks.len(),
{
    if chunks.len() == 0 {
        Seq::empty()
    } else {
        concat_chunks(chunks.drop_last()) + chunks.last()@
    }
}

/// A blob write: content already under `key` is never replaced; an absent key
/// gets `content`; a failed write leaves every object as it was. Integrity
/// errors belong to the upload pipeline, never to a backend.
pub open spec fn blob_write_post(
    before: Objects,
    after: Objects,
    key: Seq<char>,
    content: Seq<u8>,
    r: Result<bool, StorageError>,
) -> bool {
    match r {
        Ok(created) => {
            &&& created == !before.contains_key(key)
            &&& after == (if created {
                before.insert(key, content)
            } else {
                before
            })
        },
        Err(e) => after == before && !(e is IntegrityMismatch),
    }
}

/// A read: bytes come back only from a present object and are exactly its
/// content; `NotFound` comes back only for an absent one.
pub open spec fn read_post(objects: Objects, path: Seq<char>, r: Result<Vec<u8>, StorageError>) -> bool {
    match r {
        Ok(bytes) => objects.contains_key(path) && bytes@ == objects[path],
        Err(StorageError::NotFound(_)) => !objects.contains_key(path),
        Err(_) => true,
    }
}

/// The operations every storage backend offers, with the same meaning on each.
pub trait StorageBackend: Sized {
    /// Everything the backend currently holds.
    spec fn objects(&self) -> Objects;

    /// Stores `data` under `hash` unless that key is already present.
    fn write_blob(&mut self, hash: &str, data: &[u8]) -> (r: Result<bool, StorageError>)
        ensures
            blob_write_post(old(self).objects(), final(self).objects(), hash@, data@, r),
    ;

    /// Stores the concatenated chunks under `hash` unless that key is already
    /// present; `content_length`, when known, is only a hint.
    fn write_stream(&mut self, hash: &str, chunks: &[Vec<u8>], content_length: Option<u64>) -> (r:
        Result<bool, StorageError>)
        ensures
            blob_write_post(
                old(self).objects(),
                final(self).objects(),
                hash@,
                concat_chunks(chunks@),
                r,
            ),
    ;

    /// Replaces the manifest document of `version`.
    fn write_manifest(&mut self, version: &str, data: &[u8]) -> (r: Result<(), StorageError>)
        ensures
            r is Ok ==> final(self).objects() == old(self).objects().insert(
                manifest_path_of(version@),
                data@,
            ),
            r is Err ==> final(self).objects() == old(self).objects(),
    ;

    fn read_file(&self, path: &str) -> (r: Result<Vec<u8>, StorageError>)
        ensures
            read_post(self.objects(), path@, r),
    ;

    fn file_exists(&self, path: &str) -> (r: Result<bool, StorageError>)
        ensures
            r is Ok ==> r->Ok_0 == self.objects().contains_key(path@),
    ;

    /// A time-limited URL for reading `path` directly from the store, where the
    /// backend offers one; `None` tells the caller to relay the bytes itself.
    fn get_download_url(&self, path: &str) -> (r: Result<Option<String>, StorageError>);

    /// Removes `path`; removing an absent path succeeds.
    fn delete_file(&mut self, path: &str) -> (r: Result<(), StorageError>)
        ensures
            r is Ok ==> final(self).objects() == old(self).objects().remove(path@),
            r is Err ==> final(self).objects() == old(self).objects(),
            r is Err ==> !(r->Err_0 is IntegrityMismatch),
    ;

    fn get_manifest_path(&self, version: &str) -> (r: String)
        ensures
            r@ == manifest_path_of(version@),
    {
        manifest_path(version)
    }
}

} // verus!
