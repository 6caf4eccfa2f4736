//! The manifest of a published version: which blob each logical asset path
//! resolves to.

use vstd::prelude::*;
use vstd::string::*;

verus! {

/// A point in time, in seconds and nanoseconds since the Unix epoch, UTC.
#[derive(Clone, Copy, Debug, PartialEq, Eq, Structural)]
pub struct Timestamp {
    pub unix_seconds: i64,
    /// Nanoseconds within the second.
    pub nanos: u32,
}

/// One logical file of a manifest.
#[derive(Clone, Debug)]
pub struct AssetInfo {
    /// The lowercase-hex SHA-256 digest: the blob's key in storage.
    pub hash: String,
    /// Size in bytes.
    pub size: u64,
    pub mime_type: Option<String>,
}

/// The assets of one version.
#[derive(Clone, Debug)]
pub struct AssetManifest {
    pub version: String,
    pub published_at: Timestamp,
    pub published_by: String,
    /// Logical path and description of each asset.
    pub assets: Vec<(String, AssetInfo)>,
}

impl AssetManifest {
    /// The blob hash of the asset at the logical `path`, if the manifest has
    /// it; the first entry for the path wins.
    pub fn resolve_hash(&self, path: &str) -> (r: Option<String>)
        ensures
            r is None <==> forall|i: int|
                0 <= i < self.assets@.len() ==> self.assets@[i].0@ != path@,
            r is Some ==> exists|i: int|
                {
                    &&& 0 <= i < self.assets@.len()
                    &&& self.assets@[i].0@ == path@
                    &&& forall|j: int| 0 <= j < i ==> self.assets@[j].0@ != path@
                    &&& r->Some_0@ == self.assets@[i].1.hash@
                },
    {
        let wanted = String::from_str(path);
        let mut i: usize = 0;
        while i < self.assets.len()
            invariant
                i <= self.assets@.len(),
                wanted@ == path@,
                forall|j: int| 0 <= j < i ==> self.assets@[j].0@ != path@,
            decreases self.assets.len() - i,
        {
            if self.assets[i].0 == wanted {
                return Some(self.assets[i].1.hash.clone());
            }
            i = i + 1;
        }
        None
    }
}

} // verus!
