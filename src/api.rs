//! The request-level rules of the HTTP service: how failures become
//! responses, which tokens may be minted, and request parameters.

use crate::auth::scope_names;
use crate::auth::User;
use crate::error::joined;
use crate::error::storage_error_text;
use crate::error::AuthError;
use crate::error::StorageError;
use vstd::prelude::*;
use vstd::string::*;

verus! {

/// Lifetime of a minted token when the request names none: one year.
pub const DEFAULT_TOKEN_SECS: u64 = 31536000;

/// Lifetime of the session token issued after an interactive login: 30 days.
pub const SESSION_TOKEN_SECS: u64 = 2592000;

/// A failed request.
#[derive(Debug)]
pub enum ApiError {
    Storage(StorageError),
    Auth(AuthError),
    Internal(String),
}

/// The status code and body text that a failure is answered with.
pub open spec fn response_of(e: ApiError) -> (u16, Seq<char>) {
    match e {
        ApiError::Storage(StorageError::NotFound(_)) => (404, "Asset not found"@),
        ApiError::Storage(s) => (500, storage_error_text(s)),
        ApiError::Auth(_) => (401, "Unauthorized"@),
        ApiError::Internal(m) => (500, "Internal Server Error: "@ + m@),
    }
}

impl ApiError {
    pub fn response(&self) -> (r: (u16, String))
        ensures
            (r.0, r.1@) == response_of(*self),
    {
        match self {
            ApiError::Storage(StorageError::NotFound(_)) => (404, String::from_str("Asset not found")),
            ApiError::Storage(s) => (500, s.message()),
            ApiError::Auth(_) => (401, String::from_str("Unauthorized")),
            ApiError::Internal(m) => (500, joined("Internal Server Error: ", m.as_str())),
        }
    }
}

/// The identity that a request was authenticated as.
#[derive(Clone, Debug)]
pub struct AuthenticatedUser(pub User);

/// Query parameters of a manifest publication.
#[derive(Clone, Copy, Debug)]
pub struct PublishParams {
    /// Whether the `latest` alias is pointed at this manifest too.
    pub latest: bool,
}

/// The value of `latest` when a publication does not say.
pub fn default_true() -> (r: bool)
    ensures
        r,
{
    true
}

/// Query parameters of the login callback.
#[derive(Clone, Debug)]
pub struct AuthCallbackParams {
    pub code: String,
}

/// A request to mint a token.
#[derive(Clone, Debug)]
pub struct CreateTokenRequest {
    /// Whom the token is for.
    pub subject: String,
    /// How long it lasts; one year when absent.
    pub duration_seconds: Option<u64>,
    /// What it permits; `read` alone when absent.
    pub scopes: Option<Vec<String>>,
}

/// The scope names a token request asks for.
pub open spec fn requested_scopes(req: CreateTokenRequest) -> Seq<Seq<char>> {
    match req.scopes {
        Some(s) => scope_names(s@),
        None => seq!["read"@],
    }
}

/// Whether any of the names is a scope that minted tokens may not carry.
pub open spec fn asks_privilege(names: Seq<Seq<char>>) -> bool {
    exists|i: int| 0 <= i < names.len() && (names[i] == "admin"@ || names[i] == "write"@)
}

impl CreateTokenRequest {
    /// The scopes and lifetime of the token to mint, or `Forbidden` when the
    /// request asks for `admin` or `write`.
    pub fn grant(self) -> (r: Result<(Vec<String>, u64), AuthError>)
        ensures
            r is Err == asks_privilege(requested_scopes(self)),
            match r {
                Ok((scopes, secs)) => {
                    &&& scope_names(scopes@) == requested_scopes(self)
                    &&& secs == match self.duration_seconds {
                        Some(d) => d,
                        None => DEFAULT_TOKEN_SECS,
                    }
                },
                Err(AuthError::Forbidden(m)) => m@ == "Cannot mint admin/write tokens."@,
                Err(_) => false,
            },
    {
        let ghost requested = requested_scopes(self);
        let scopes = match self.scopes {
            Some(s) => s,
            None => vec![String::from_str("read")],
        };
        proof {
            assert(scope_names(scopes@) =~= requested);
        }
        let admin = String::from_str("admin");
        let write = String::from_str("write");
        let mut i: usize = 0;
        while i < scopes.len()
            invariant
                i <= scopes@.len(),
                admin@ == "admin"@,
                write@ == "write"@,
                scope_names(scopes@) == requested,
                requested == requested_scopes(self),
                forall|j: int|
                    0 <= j < i ==> !(requested[j] == "admin"@ || requested[j] == "write"@),
            decreases scopes.len() - i,
        {
            proof {
                assert(requested[i as int] == scopes@[i as int]@);
            }
            if scopes[i] == admin || scopes[i] == write {
                proof {
                    assert(requested.len() == scopes@.len());
                    assert(requested[i as int] == "admin"@ || requested[i as int] == "write"@);
                }
                return Err(AuthError::Forbidden(String::from_str("Cannot mint admin/write tokens.")));
            }
            i = i + 1;
        }
        let secs = match self.duration_seconds {
            Some(d) => d,
            None => DEFAULT_TOKEN_SECS,
        };
        Ok((scopes, secs))
    }
}

} // verus!
