//! The local-directory backend's layout: where each object lives and where
//! its content is staged before the atomic rename that publishes it.

use crate::error::joined;
use crate::error::StorageError;
use vstd::prelude::*;
use vstd::string::*;

verus! {

/// `path` resolved against `root` as a path join does: an absolute path
/// stands alone, and a separator is inserted only where `root` lacks one.
pub open spec fn join_path(root: Seq<char>, path: Seq<char>) -> Seq<char> {
    if path.len() > 0 && path[0] == '/' {
        path
    } else if root.len() == 0 || root.last() == '/' {
        root + path
    } else {
        root + "/"@ + path
    }
}

/// The sibling file that receives the content of `path` before it is
/// renamed into place.
pub open spec fn staging_path_of(path: Seq<char>) -> Seq<char> {
    path + ".tmp"@
}

/// The next step of a filesystem write.
#[derive(Debug)]
pub enum FsWriteStep {
    /// Done, with this result.
    Finish(Result<bool, StorageError>),
    /// Write the content to `staging`, then rename it onto `target`.
    Stage { target: String, staging: String },
}

/// Stores objects as files under a root directory.
#[derive(Clone, Debug)]
pub struct FileSystemStorage {
    root: String,
}

impl FileSystemStorage {
    pub closed spec fn root_spec(&self) -> Seq<char> {
        self.root@
    }

    pub fn new(path: String) -> (r: Self)
        ensures
            r.root_spec() == path@,
    {
        FileSystemStorage { root: path }
    }

    pub fn root(&self) -> (r: &str)
        ensures
            r@ == self.root_spec(),
    {
        self.root.as_str()
    }

    /// The file that holds the object at `path`.
    pub fn get_path(&self, path: &str) -> (r: String)
        ensures
            r@ == join_path(self.root_spec(), path@),
    {
        let n = path.unicode_len();
        if n > 0 && path.get_char(0) == '/' {
            return String::from_str(path);
        }
        let m = self.root.as_str().unicode_len();
        let mut r = self.root.clone();
        if m > 0 && self.root.as_str().get_char(m - 1) != '/' {
            r.append("/");
        }
        r.append(path);
        r
    }

    /// The file that holds the object at `path`, and the file its content is
    /// staged in before the rename that makes it visible.
    pub fn staged_paths(&self, path: &str) -> (r: (String, String))
        ensures
            r.0@ == join_path(self.root_spec(), path@),
            r.1@ == staging_path_of(r.0@),
    {
        let target = self.get_path(path);
        let staging = FileSystemStorage::staging_path(target.as_str());
        (target, staging)
    }

    /// A blob write of `hash`: a file already present is kept as it is;
    /// otherwise the content is staged beside the target and renamed onto it.
    pub fn write_plan(&self, hash: &str, present: bool) -> (r: FsWriteStep)
        ensures
            present ==> r == FsWriteStep::Finish(Ok(false)),
            !present ==> match r {
                FsWriteStep::Stage { target, staging } => {
                    &&& target@ == join_path(self.root_spec(), hash@)
                    &&& staging@ == staging_path_of(target@)
                },
                FsWriteStep::Finish(_) => false,
            },
    {
        if present {
            return FsWriteStep::Finish(Ok(false));
        }
        let (target, staging) = self.staged_paths(hash);
        FsWriteStep::Stage { target, staging }
    }

    /// The staging file for `path`, beside it in the same directory.
    pub fn staging_path(path: &str) -> (r: String)
        ensures
            r@ == staging_path_of(path@),
    {
        joined(path, ".tmp")
    }
}

} // verus!
