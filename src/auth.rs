//! Identities, the authentication-provider interface and scope checks.

use crate::error::joined;
use crate::error::AuthError;
use vstd::prelude::*;
use vstd::string::*;

verus! {

/// An authenticated identity and the scopes it holds.
#[derive(Clone, Debug)]
pub struct User {
    pub id: String,
    pub scopes: Vec<String>,
}

/// The names of a list of scopes.
pub open spec fn scope_names(scopes: Seq<String>) -> Seq<Seq<char>> {
    scopes.map_values(|s: String| s@)
}

/// Whether `scopes` permit an action that needs `required`: `admin` permits
/// everything.
pub open spec fn grants(scopes: Seq<Seq<char>>, required: Seq<char>) -> bool {
    exists|i: int| 0 <= i < scopes.len() && (scopes[i] == "admin"@ || scopes[i] == required)
}

pub open spec fn missing_scope_text(required: Seq<char>) -> Seq<char> {
    "Missing permission: '"@ + required + "' scope required."@
}

/// Succeeds when the user holds `admin` or `required`; otherwise fails with
/// `Forbidden`, naming the missing scope.
pub fn check_scope(user: &User, required: &str) -> (r: Result<(), AuthError>)
    ensures
        r is Ok == grants(scope_names(user.scopes@), required@),
        match r {
            Err(AuthError::Forbidden(m)) => m@ == missing_scope_text(required@),
            Err(_) => false,
            Ok(_) => true,
        },
{
    let admin = String::from_str("admin");
    let wanted = String::from_str(required);
    let mut i: usize = 0;
    while i < user.scopes.len()
        invariant
            i <= user.scopes@.len(),
            admin@ == "admin"@,
            wanted@ == required@,
            forall|j: int|
                0 <= j < i ==> !(user.scopes@[j]@ == "admin"@ || user.scopes@[j]@ == required@),
        decreases user.scopes.len() - i,
    {
        if user.scopes[i] == admin || user.scopes[i] == wanted {
            proof {
                assert(scope_names(user.scopes@)[i as int] == user.scopes@[i as int]@);
            }
            return Ok(());
        }
        i = i + 1;
    }
    proof {
        assert forall|j: int| 0 <= j < scope_names(user.scopes@).len() implies !(scope_names(
            user.scopes@,
        )[j] == "admin"@ || scope_names(user.scopes@)[j] == required@) by {
            assert(scope_names(user.scopes@)[j] == user.scopes@[j]@);
        }
    }
    let mut m = joined("Missing permission: '", required);
    m.append("' scope required.");
    Err(AuthError::Forbidden(m))
}

/// Verifies bearer tokens; providers with an interactive login flow also
/// offer a login URL and exchange its authorization codes for identities.
pub trait AuthProvider: Sized {
    fn verify(&self, token: &str) -> (r: Result<User, AuthError>);

    fn get_login_url(&self) -> (r: Option<String>) {
        None
    }

    fn exchange_code(&self, code: &str) -> (r: Result<User, AuthError>) {
        Err(AuthError::Generic(String::from_str("Login flow not supported by this provider")))
    }
}

/// Accepts every token as a development user holding every scope. For local
/// testing only.
#[derive(Clone, Copy, Debug)]
pub struct AllowAllAuth;

impl AuthProvider for AllowAllAuth {
    fn verify(&self, token: &str) -> (r: Result<User, AuthError>)
        ensures
            r is Ok,
            r->Ok_0.id@ == "dev_user"@,
            scope_names(r->Ok_0.scopes@) == seq!["admin"@, "read"@, "write"@],
    {
        let scopes = vec![
            String::from_str("admin"),
            String::from_str("read"),
            String::from_str("write"),
        ];
        let user = User { id: String::from_str("dev_user"), scopes };
        proof {
            assert(scope_names(user.scopes@) =~= seq!["admin"@, "read"@, "write"@]);
        }
        Ok(user)
    }
}

/// The claims that a signed token carries.
#[derive(Clone, Debug)]
pub struct Claims {
    /// The identity the token was issued to.
    pub sub: String,
    /// Expiry, in seconds since the Unix epoch.
    pub exp: usize,
    pub scopes: Vec<String>,
}

impl Claims {
    /// The claims of a token for `subject` that expires `duration_secs` after
    /// `now_secs`; `None` when that instant is beyond what `exp` can hold.
    pub fn issue(subject: String, scopes: Vec<String>, now_secs: u64, duration_secs: u64) -> (r:
        Option<Claims>)
        ensures
            r is Some == (now_secs + duration_secs <= usize::MAX),
            r is Some ==> {
                &&& r->Some_0.sub == subject
                &&& r->Some_0.exp == now_secs + duration_secs
                &&& r->Some_0.scopes == scopes
            },
    {
        if duration_secs > u64::MAX - now_secs {
            return None;
        }
        let exp = now_secs + duration_secs;
        if exp as u128 > usize::MAX as u128 {
            return None;
        }
        Some(Claims { sub: subject, exp: exp as usize, scopes })
    }

    /// The identity the claims speak for.
    pub fn into_user(self) -> (r: User)
        ensures
            r.id == self.sub,
            r.scopes == self.scopes,
    {
        User { id: self.sub, scopes: self.scopes }
    }
}

/// Whether `c` has the Unicode `White_Space` property.
pub open spec fn is_white_space(c: char) -> bool {
    let n = c as u32;
    (0x9 <= n <= 0xd) || n == 0x20 || n == 0x85 || n == 0xa0 || n == 0x1680 || (0x2000 <= n
        <= 0x200a) || n == 0x2028 || n == 0x2029 || n == 0x202f || n == 0x205f || n == 0x3000
}

/// `r` is `s` without its leading and trailing white space.
pub open spec fn is_trim_of(s: Seq<char>, r: Seq<char>) -> bool {
    exists|i: int, j: int|
        {
            &&& 0 <= i <= j <= s.len()
            &&& r == s.subrange(i, j)
            &&& forall|k: int| 0 <= k < i ==> is_white_space(#[trigger] s[k])
            &&& forall|k: int| j <= k < s.len() ==> is_white_space(#[trigger] s[k])
            &&& i < j ==> !is_white_space(s[i]) && !is_white_space(s[j - 1])
        }
}

/// Relies on `str::trim`: the slice without leading and trailing characters
/// of the Unicode `White_Space` property.
#[verifier::external_body]
fn trim_white_space(s: &str) -> (r: &str)
    ensures
        is_trim_of(s@, r@),
{
    s.trim()
}

/// What follows the `Bearer ` scheme, or the whole value without one.
pub open spec fn after_bearer(header: Seq<char>) -> Seq<char> {
    if header.len() >= 7 && header.subrange(0, 7) == "Bearer "@ {
        header.subrange(7, header.len() as int)
    } else {
        header
    }
}

/// The token of an `Authorization` header value: the part after the
/// `Bearer ` scheme when present, without surrounding white space.
pub fn bearer_token(header: &str) -> (r: String)
    ensures
        is_trim_of(after_bearer(header@), r@),
{
    proof {
        reveal_strlit("Bearer ");
    }
    let scheme = "Bearer ";
    let n = header.unicode_len();
    let mut has_scheme = n >= 7;
    let mut i: usize = 0;
    while i < 7 && has_scheme
        invariant
            n == header@.len(),
            scheme@ == "Bearer "@,
            scheme@.len() == 7,
            i <= 7,
            has_scheme ==> n >= 7 && forall|k: int| 0 <= k < i ==> header@[k] == scheme@[k],
            !has_scheme ==> !(header@.len() >= 7 && header@.subrange(0, 7) == "Bearer "@),
        decreases 7 - i,
    {
        if header.get_char(i) != scheme.get_char(i) {
            proof {
                if header@.len() >= 7 && header@.subrange(0, 7) == "Bearer "@ {
                    assert(header@.subrange(0, 7)[i as int] == header@[i as int]);
                }
            }
            has_scheme = false;
        }
        i = i + 1;
    }
    let rest = if has_scheme {
        proof {
            assert(header@.subrange(0, 7) =~= "Bearer "@);
        }
        header.substring_char(7, n)
    } else {
        header
    };
    String::from_str(trim_white_space(rest))
}

/// OAuth settings of the GitHub identity provider.
#[derive(Clone, Debug, Default)]
pub struct GithubConfig {
    pub client_id: String,
    pub client_secret: String,
    pub redirect_uri: String,
    /// When set, only members of this organization are let in.
    pub required_org: Option<String>,
}

pub open spec fn github_login_url(client_id: Seq<char>, redirect_uri: Seq<char>) -> Seq<char> {
    "https://github.com/login/oauth/authorize?client_id="@ + client_id + "&redirect_uri="@
        + redirect_uri + "&scope=read:user,read:org"@
}

impl GithubConfig {
    /// Where a user starts GitHub's authorization flow.
    pub fn login_url(&self) -> (r: String)
        ensures
            r@ == github_login_url(self.client_id@, self.redirect_uri@),
    {
        let mut url = joined(
            "https://github.com/login/oauth/authorize?client_id=",
            self.client_id.as_str(),
        );
        url.append("&redirect_uri=");
        url.append(self.redirect_uri.as_str());
        url.append("&scope=read:user,read:org");
        url
    }
}

} // verus!
