//! The object-storage backend's configuration: bucket, key prefix and
//! presigning, and the keys and presign requests derived from them.

use crate::error::joined;
use aws_sdk_s3::Client;
use vstd::prelude::*;
use vstd::string::*;

verus! {

#[verifier::external_type_specification]
#[verifier::external_body]
pub struct ExS3Client(Client);

/// Stores objects in a bucket, each under the configured prefix.
pub struct S3Storage {
    client: Client,
    bucket: String,
    prefix: String,
    /// Lifetime in seconds of presigned download URLs; none disables them.
    presign_secs: Option<u64>,
}

impl S3Storage {
    pub closed spec fn bucket_spec(&self) -> Seq<char> {
        self.bucket@
    }

    pub closed spec fn prefix_spec(&self) -> Seq<char> {
        self.prefix@
    }

    pub closed spec fn client_spec(&self) -> Client {
        self.client
    }

    pub closed spec fn presign_spec(&self) -> Option<u64> {
        self.presign_secs
    }

    /// A backend without presigning; a missing prefix is the empty one.
    pub fn new(client: Client, bucket: String, prefix: Option<String>) -> (r: Self)
        ensures
            r.client_spec() == client,
            r.bucket_spec() == bucket@,
            r.prefix_spec() == (match prefix {
                Some(p) => p@,
                None => Seq::<char>::empty(),
            }),
            r.presign_spec() is None,
    {
        let prefix = match prefix {
            Some(p) => p,
            None => String::new(),
        };
        S3Storage { client, bucket, prefix, presign_secs: None }
    }

    /// Turns on presigned download URLs that stay valid for `duration_secs`.
    pub fn with_presigning(self, duration_secs: u64) -> (r: Self)
        ensures
            r.client_spec() == self.client_spec(),
            r.bucket_spec() == self.bucket_spec(),
            r.prefix_spec() == self.prefix_spec(),
            r.presign_spec() == Some(duration_secs),
    {
        S3Storage { presign_secs: Some(duration_secs), ..self }
    }

    pub fn client(&self) -> (r: &Client)
        ensures
            *r == self.client_spec(),
    {
        &self.client
    }

    pub fn bucket(&self) -> (r: &str)
        ensures
            r@ == self.bucket_spec(),
    {
        self.bucket.as_str()
    }

    /// The bucket key of `path`: the prefix followed by the path.
    pub fn key(&self, path: &str) -> (r: String)
        ensures
            r@ == self.prefix_spec() + path@,
    {
        joined(self.prefix.as_str(), path)
    }

    /// The key to presign and the URL lifetime in seconds, when presigning is
    /// configured; `None` means the bytes are relayed by the caller.
    pub fn presign_request(&self, path: &str) -> (r: Option<(String, u64)>)
        ensures
            r is None == self.presign_spec() is None,
            r is Some ==> r->Some_0.0@ == self.prefix_spec() + path@ && Some(r->Some_0.1)
                == self.presign_spec(),
    {
        match self.presign_secs {
            Some(secs) => Some((self.key(path), secs)),
            None => None,
        }
    }
}

} // verus!
