//! Uploads: the whole-body path, and the streamed path that folds every chunk
//! into a running digest and rolls the write back when the digest differs
//! from the declared hash.

use crate::digest::content_hash;
use crate::digest::digest_hex;
use crate::digest::Digester;
use crate::error::StorageError;
use crate::storage::blob_write_post;
use crate::storage::concat_chunks;
use crate::storage::manifest_path_of;
use crate::storage::read_post;
use crate::storage::Objects;
use crate::storage::StorageBackend;
use vstd::prelude::*;

verus! {

/// What to do once the backend reports a streamed write finished.
#[derive(Debug)]
pub enum UploadVerdict {
    /// The write stands; `created` is false when the blob was already present.
    Stored { created: bool },
    /// The digest differs from the declared hash: the object must be deleted
    /// and the upload reported as failed.
    RollBack { expected: String, computed: String },
}

/// The verdict for a streamed write under `declared` whose content digests to
/// `computed`: only a freshly created object is checked.
pub open spec fn verdict_post(
    declared: Seq<char>,
    computed: Seq<char>,
    created: bool,
    r: UploadVerdict,
) -> bool {
    match r {
        UploadVerdict::Stored { created: c } => c == created && (created ==> computed == declared),
        UploadVerdict::RollBack { expected, computed: got } => {
            &&& created
            &&& computed != declared
            &&& expected@ == declared
            &&& got@ == computed
        },
    }
}

/// Decides a finished streamed write: a new object must digest to the
/// declared hash, an object that was already present is left alone.
pub fn integrity_verdict(declared: &str, computed: String, created: bool) -> (r: UploadVerdict)
    ensures
        verdict_post(declared@, computed@, created, r),
{
    if !created {
        return UploadVerdict::Stored { created: false };
    }
    let expected = String::from_str(declared);
    if computed == expected {
        UploadVerdict::Stored { created: true }
    } else {
        UploadVerdict::RollBack { expected, computed }
    }
}

/// The state of one streamed upload: the declared hash and a digest of every
/// byte passed on so far.
pub struct StreamUpload {
    declared: String,
    digester: Digester,
}

impl StreamUpload {
    pub closed spec fn declared(&self) -> Seq<char> {
        self.declared@
    }

    /// Every byte passed on so far, in order.
    pub closed spec fn received(&self) -> Seq<u8> {
        self.digester@
    }

    pub fn new(declared: &str) -> (r: Self)
        ensures
            r.declared() == declared@,
            r.received() == Seq::<u8>::empty(),
    {
        StreamUpload { declared: String::from_str(declared), digester: Digester::new() }
    }

    /// Folds the next chunk into the digest, before it is passed on.
    pub fn feed(&mut self, chunk: &[u8])
        ensures
            final(self).declared() == old(self).declared(),
            final(self).received() == old(self).received() + chunk@,
    {
        self.digester.update(chunk);
    }

    /// The verdict once the backend reports the write finished.
    pub fn conclude(self, created: bool) -> (r: UploadVerdict)
        ensures
            verdict_post(self.declared(), content_hash(self.received()), created, r),
    {
        let computed = self.digester.finalize_hex();
        integrity_verdict(self.declared.as_str(), computed, created)
    }
}

/// What a streamed upload of `content` under `key` leaves behind.
pub open spec fn stream_upload_post(
    before: Objects,
    after: Objects,
    key: Seq<char>,
    content: Seq<u8>,
    r: Result<bool, StorageError>,
) -> bool {
    match r {
        Ok(true) => {
            &&& !before.contains_key(key)
            &&& content_hash(content) == key
            &&& after == before.insert(key, content)
        },
        Ok(false) => before.contains_key(key) && after == before,
        // The rollback deleted the object again, unless the deletion failed.
        Err(StorageError::IntegrityMismatch { expected, computed }) => {
            &&& !before.contains_key(key)
            &&& expected@ == key
            &&& computed@ == content_hash(content)
            &&& computed@ != key
            &&& (after == before || after == before.insert(key, content))
        },
        // The write itself failed.
        Err(e) => !(e is IntegrityMismatch) && after == before,
    }
}

/// The result of an upload whose digest differed from the declared one, once
/// the rollback has been attempted: the integrity error naming both digests,
/// whatever the deletion reported.
pub fn rollback_result(expected: String, computed: String, deleted: Result<(), StorageError>) -> (r:
    Result<bool, StorageError>)
    ensures
        r == Err::<bool, StorageError>(StorageError::IntegrityMismatch { expected, computed }),
{
    Err(StorageError::IntegrityMismatch { expected, computed })
}

/// Streams `chunks` into `storage` under the declared hash, digesting every
/// chunk on its way; a new object whose digest differs is deleted again.
pub fn upload_stream<S: StorageBackend>(
    storage: &mut S,
    declared: &str,
    chunks: &[Vec<u8>],
    content_length: Option<u64>,
) -> (r: Result<bool, StorageError>)
    ensures
        stream_upload_post(
            old(storage).objects(),
            final(storage).objects(),
            declared@,
            concat_chunks(chunks@),
            r,
        ),
{
    let ghost before = storage.objects();
    let mut upload = StreamUpload::new(declared);
    let mut i: usize = 0;
    while i < chunks.len()
        invariant
            i <= chunks@.len(),
            upload.declared() == declared@,
            upload.received() == concat_chunks(chunks@.subrange(0, i as int)),
        decreases chunks.len() - i,
    {
        upload.feed(chunks[i].as_slice());
        proof {
            assert(chunks@.subrange(0, i + 1).drop_last() =~= chunks@.subrange(0, i as int));
        }
        i = i + 1;
    }
    proof {
        assert(chunks@.subrange(0, chunks@.len() as int) =~= chunks@);
    }
    let created = match storage.write_stream(declared, chunks, content_length) {
        Ok(c) => c,
        Err(e) => return Err(e),
    };
    match upload.conclude(created) {
        UploadVerdict::Stored { created } => Ok(created),
        UploadVerdict::RollBack { expected, computed } => {
            let deleted = storage.delete_file(declared);
            proof {
                if deleted is Ok {
                    assert(storage.objects() =~= before);
                }
            }
            rollback_result(expected, computed, deleted)
        },
    }
}

/// What storing a whole body under its own digest leaves behind.
pub open spec fn blob_upload_post(
    before: Objects,
    after: Objects,
    body: Seq<u8>,
    r: Result<(bool, String), StorageError>,
) -> bool {
    match r {
        Ok((created, hash)) => {
            &&& hash@ == content_hash(body)
            &&& blob_write_post(before, after, hash@, body, Ok(created))
        },
        Err(_) => after == before,
    }
}

/// Stores a whole body under its own digest, returning whether it was new
/// and the digest.
pub fn upload_blob<S: StorageBackend>(storage: &mut S, body: &[u8]) -> (r: Result<
    (bool, String),
    StorageError,
>)
    ensures
        blob_upload_post(old(storage).objects(), final(storage).objects(), body@, r),
{
    let hash = digest_hex(body);
    match storage.write_blob(hash.as_str(), body) {
        Ok(created) => Ok((created, hash)),
        Err(e) => Err(e),
    }
}

/// The versions a publication of `version` writes its document under, in
/// order: the version itself, then the `latest` alias when asked for.
pub fn manifest_versions(version: &str, latest: bool) -> (r: Vec<String>)
    ensures
        latest ==> r@.len() == 2 && r@[0]@ == version@ && r@[1]@ == "latest"@,
        !latest ==> r@.len() == 1 && r@[0]@ == version@,
{
    let mut r = vec![String::from_str(version)];
    if latest {
        r.push(String::from_str("latest"));
    }
    r
}

/// Publishes a manifest document under its version and, when `latest` is
/// set, under the `latest` alias too. The two writes are independent: when
/// the second fails, the first stands.
pub fn publish_manifest<S: StorageBackend>(
    storage: &mut S,
    version: &str,
    document: &[u8],
    latest: bool,
) -> (r: Result<(), StorageError>)
    ensures
        r is Ok ==> final(storage).objects() == (if latest {
            old(storage).objects().insert(manifest_path_of(version@), document@).insert(
                manifest_path_of("latest"@),
                document@,
            )
        } else {
            old(storage).objects().insert(manifest_path_of(version@), document@)
        }),
        r is Err ==> final(storage).objects() == old(storage).objects() || (latest
            && final(storage).objects() == old(storage).objects().insert(
            manifest_path_of(version@),
            document@,
        )),
{
    match storage.write_manifest(version, document) {
        Ok(()) => {},
        Err(e) => return Err(e),
    }
    if latest {
        storage.write_manifest("latest", document)
    } else {
        Ok(())
    }
}

/// Reads the manifest document of `version`.
pub fn fetch_manifest<S: StorageBackend>(storage: &S, version: &str) -> (r: Result<
    Vec<u8>,
    StorageError,
>)
    ensures
        read_post(storage.objects(), manifest_path_of(version@), r),
{
    let path = storage.get_manifest_path(version);
    storage.read_file(path.as_str())
}

} // verus!
