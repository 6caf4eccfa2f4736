//! Properties that hold across several storage calls, proved from the
//! contracts that every backend and the upload pipeline meet.

use crate::digest::content_hash;
use crate::error::StorageError;
use crate::pipeline::blob_upload_post;
use crate::pipeline::stream_upload_post;
use crate::storage::blob_write_post;
use crate::storage::concat_chunks;
use crate::storage::manifest_path_of;
use crate::storage::read_post;
use crate::storage::Objects;
use vstd::prelude::*;

verus! {

/// A successful blob write followed by a read of the same hash gives back
/// exactly the bytes written, provided that whatever the store already held
/// under that hash was those bytes.
pub proof fn law_write_then_read(
    before: Objects,
    after: Objects,
    hash: Seq<char>,
    bytes: Seq<u8>,
    written: Result<bool, StorageError>,
    read: Result<Vec<u8>, StorageError>,
)
    requires
        blob_write_post(before, after, hash, bytes, written),
        written is Ok,
        before.contains_key(hash) ==> before[hash] == bytes,
        read_post(after, hash, read),
    ensures
        after.contains_key(hash),
        after[hash] == bytes,
        read is Ok ==> read->Ok_0@ == bytes,
        read is Err ==> !(read->Err_0 is NotFound),
{
}

/// Writing the same blob twice: the second write reports that nothing was
/// created and leaves the store exactly as the first left it; the first
/// reports a creation whenever the hash was absent.
pub proof fn law_write_twice(
    start: Objects,
    middle: Objects,
    end: Objects,
    hash: Seq<char>,
    bytes: Seq<u8>,
    first: Result<bool, StorageError>,
    second: Result<bool, StorageError>,
)
    requires
        blob_write_post(start, middle, hash, bytes, first),
        blob_write_post(middle, end, hash, bytes, second),
        first is Ok,
        second is Ok,
    ensures
        !start.contains_key(hash) ==> first == Ok::<bool, StorageError>(true),
        second == Ok::<bool, StorageError>(false),
        end == middle,
{
}

/// Streaming a payload in any chunking and storing it as one body give the
/// same stored objects, the same creation flag and the same hash, when the
/// declared hash is the payload's digest.
pub proof fn law_stream_matches_whole(
    before: Objects,
    streamed: Objects,
    whole: Objects,
    chunks: Seq<Vec<u8>>,
    body: Seq<u8>,
    key: Seq<char>,
    stream_result: Result<bool, StorageError>,
    whole_result: Result<(bool, String), StorageError>,
)
    requires
        concat_chunks(chunks) == body,
        key == content_hash(body),
        stream_upload_post(before, streamed, key, body, stream_result),
        stream_result is Ok,
        blob_upload_post(before, whole, body, whole_result),
        whole_result is Ok,
    ensures
        streamed == whole,
        stream_result->Ok_0 == whole_result->Ok_0.0,
        whole_result->Ok_0.1@ == key,
{
}

/// A streamed payload whose digest differs from the declared hash fails, with
/// an integrity error or with the failure of the write itself; the payload
/// can remain under the declared hash only when the backend's deletion of it
/// failed.
pub proof fn law_integrity_rollback(
    before: Objects,
    after: Objects,
    key: Seq<char>,
    content: Seq<u8>,
    r: Result<bool, StorageError>,
)
    requires
        stream_upload_post(before, after, key, content, r),
        content_hash(content) != key,
        !before.contains_key(key),
    ensures
        r is Err,
        !(r->Err_0 is IntegrityMismatch) ==> after == before,
        after == before || after == before.insert(key, content),
{
}

/// A published manifest document reads back byte for byte from the manifest
/// path of its version.
pub proof fn law_manifest_round_trip(
    before: Objects,
    after: Objects,
    version: Seq<char>,
    document: Seq<u8>,
    read: Result<Vec<u8>, StorageError>,
)
    requires
        after == before.insert(manifest_path_of(version), document),
        read_post(after, manifest_path_of(version), read),
    ensures
        read is Ok ==> read->Ok_0@ == document,
        read is Err ==> !(read->Err_0 is NotFound),
{
}

} // verus!
