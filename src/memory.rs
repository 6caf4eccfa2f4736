//! A backend that keeps every object in process memory, as an append-only
//! log of writes and deletions. It serves tests and single-process setups.

use crate::error::joined;
use crate::error::StorageError;
use crate::storage::concat_chunks;
use crate::storage::manifest_path_of;
use crate::storage::Objects;
use crate::storage::StorageBackend;
use vstd::prelude::*;
use vstd::slice::slice_to_vec;
use vstd::string::*;

verus! {

/// One logged change: new content for a path, or its deletion.
type LogEntry = (String, Option<Vec<u8>>);

/// The objects that a log of changes leaves, applied oldest first.
pub open spec fn log_objects(log: Seq<LogEntry>) -> Objects
    decreases log.len(),
{
    if log.len() == 0 {
        Map::empty()
    } else {
        let rest = log_objects(log.drop_last());
        match log.last().1 {
            Some(content) => rest.insert(log.last().0@, content@),
            None => rest.remove(log.last().0@),
        }
    }
}

/// Changes after position `i` that touch other paths leave `path` as it was.
proof fn lemma_untouched_suffix(log: Seq<LogEntry>, i: int, path: Seq<char>)
    requires
        0 <= i <= log.len(),
        forall|j: int| i <= j < log.len() ==> log[j].0@ != path,
    ensures
        log_objects(log).contains_key(path) == log_objects(log.subrange(0, i)).contains_key(path),
        log_objects(log).contains_key(path) ==> log_objects(log)[path] == log_objects(
            log.subrange(0, i),
        )[path],
    decreases log.len() - i,
{
    if log.len() > i {
        lemma_untouched_suffix(log.drop_last(), i, path);
        assert(log.drop_last().subrange(0, i) =~= log.subrange(0, i));
    } else {
        assert(log.subrange(0, i) =~= log);
    }
}

/// The most recent change to `path`, if any, decides what it holds.
proof fn lemma_latest_change(log: Seq<LogEntry>, i: int, path: Seq<char>)
    requires
        0 <= i < log.len(),
        log[i].0@ == path,
        forall|j: int| i < j < log.len() ==> log[j].0@ != path,
    ensures
        log_objects(log).contains_key(path) == log[i].1 is Some,
        log[i].1 is Some ==> log_objects(log)[path] == log[i].1->Some_0@,
{
    lemma_untouched_suffix(log, i + 1, path);
    assert(log.subrange(0, i + 1).drop_last() =~= log.subrange(0, i));
}

#[derive(Clone, Debug)]
pub struct MemoryStorage {
    log: Vec<LogEntry>,
}

impl MemoryStorage {
    pub fn new() -> (r: Self)
        ensures
            r.objects() == Objects::empty(),
    {
        MemoryStorage { log: Vec::new() }
    }

    /// The current content of `path`.
    fn lookup(&self, path: &str) -> (r: Option<Vec<u8>>)
        ensures
            r is Some == self.objects().contains_key(path@),
            r is Some ==> r->Some_0@ == self.objects()[path@],
    {
        let key = String::from_str(path);
        let mut i: usize = self.log.len();
        while i > 0
            invariant
                i <= self.log@.len(),
                key@ == path@,
                forall|j: int| i <= j < self.log@.len() ==> self.log@[j].0@ != path@,
            decreases i,
        {
            i = i - 1;
            if self.log[i].0 == key {
                proof {
                    lemma_latest_change(self.log@, i as int, path@);
                }
                return match &self.log[i].1 {
                    Some(content) => Some(slice_to_vec(content.as_slice())),
                    None => None,
                };
            }
        }
        proof {
            lemma_untouched_suffix(self.log@, 0, path@);
        }
        None
    }

    fn record(&mut self, path: &str, content: Option<Vec<u8>>)
        ensures
            final(self).objects() == (match content {
                Some(c) => old(self).objects().insert(path@, c@),
                None => old(self).objects().remove(path@),
            }),
    {
        self.log.push((String::from_str(path), content));
        proof {
            assert(self.log@.drop_last() =~= old(self).log@);
        }
    }

    fn flatten(chunks: &[Vec<u8>]) -> (r: Vec<u8>)
        ensures
            r@ == concat_chunks(chunks@),
    {
        let mut out: Vec<u8> = Vec::new();
        let mut i: usize = 0;
        while i < chunks.len()
            invariant
                i <= chunks@.len(),
                out@ == concat_chunks(chunks@.subrange(0, i as int)),
            decreases chunks.len() - i,
        {
            let mut piece = slice_to_vec(chunks[i].as_slice());
            out.append(&mut piece);
            proof {
                assert(chunks@.subrange(0, i + 1).drop_last() =~= chunks@.subrange(0, i as int));
            }
            i = i + 1;
        }
        proof {
            assert(chunks@.subrange(0, chunks@.len() as int) =~= chunks@);
        }
        out
    }
}

impl StorageBackend for MemoryStorage {
    closed spec fn objects(&self) -> Objects {
        log_objects(self.log@)
    }

    fn write_blob(&mut self, hash: &str, data: &[u8]) -> (r: Result<bool, StorageError>)
        ensures
            r is Ok,
    {
        if self.lookup(hash).is_some() {
            return Ok(false);
        }
        self.record(hash, Some(slice_to_vec(data)));
        Ok(true)
    }

    fn write_stream(&mut self, hash: &str, chunks: &[Vec<u8>], content_length: Option<u64>) -> (r:
        Result<bool, StorageError>)
        ensures
            r is Ok,
    {
        if self.lookup(hash).is_some() {
            return Ok(false);
        }
        let content = MemoryStorage::flatten(chunks);
        self.record(hash, Some(content));
        Ok(true)
    }

    fn write_manifest(&mut self, version: &str, data: &[u8]) -> (r: Result<(), StorageError>)
        ensures
            r is Ok,
    {
        let path = joined("manifests/", version);
        self.record(path.as_str(), Some(slice_to_vec(data)));
        Ok(())
    }

    fn read_file(&self, path: &str) -> (r: Result<Vec<u8>, StorageError>)
        ensures
            r is Ok == self.objects().contains_key(path@),
    {
        match self.lookup(path) {
            Some(content) => Ok(content),
            None => Err(StorageError::NotFound(String::from_str(path))),
        }
    }

    fn file_exists(&self, path: &str) -> (r: Result<bool, StorageError>)
        ensures
            r is Ok,
    {
        Ok(self.lookup(path).is_some())
    }

    fn get_download_url(&self, path: &str) -> (r: Result<Option<String>, StorageError>)
        ensures
            r == Ok::<Option<String>, StorageError>(None),
    {
        Ok(None)
    }

    fn delete_file(&mut self, path: &str) -> (r: Result<(), StorageError>)
        ensures
            r is Ok,
    {
        self.record(path, None);
        Ok(())
    }
}

} // verus!
