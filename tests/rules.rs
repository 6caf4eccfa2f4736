use aquila::api::default_true;
use aquila::api::ApiError;
use aquila::api::CreateTokenRequest;
use aquila::api::DEFAULT_TOKEN_SECS;
use aquila::auth::bearer_token;
use aquila::auth::check_scope;
use aquila::auth::Claims;
use aquila::auth::AllowAllAuth;
use aquila::auth::AuthProvider;
use aquila::auth::GithubConfig;
use aquila::auth::User;
use aquila::error::AuthError;
use aquila::error::StorageError;
use aquila::fs::FileSystemStorage;
use aquila::manifest::AssetInfo;
use aquila::manifest::AssetManifest;
use aquila::manifest::Timestamp;
use aquila::server::AquilaServer;
use aquila::server::AquilaSeverConfig;
use aquila::server::AuthRoutes;

fn user(scopes: &[&str]) -> User {
    User { id: "u".to_string(), scopes: scopes.iter().map(|s| s.to_string()).collect() }
}

fn names(v: &[String]) -> Vec<&str> {
    v.iter().map(|s| s.as_str()).collect()
}

#[test]
fn scope_checks() {
    assert!(check_scope(&user(&["read"]), "read").is_ok());
    assert!(check_scope(&user(&["admin"]), "write").is_ok());
    match check_scope(&user(&["read"]), "write") {
        Err(AuthError::Forbidden(m)) => assert_eq!(m, "Missing permission: 'write' scope required."),
        _ => panic!("expected Forbidden"),
    }
    assert!(check_scope(&user(&[]), "read").is_err());
}

#[test]
fn allow_all_auth_grants_everything() {
    let u = AllowAllAuth.verify("whatever").ok().unwrap();
    assert_eq!(u.id, "dev_user");
    assert_eq!(names(&u.scopes), vec!["admin", "read", "write"]);
    assert!(AllowAllAuth.get_login_url().is_none());
    match AllowAllAuth.exchange_code("code") {
        Err(AuthError::Generic(m)) => assert_eq!(m, "Login flow not supported by this provider"),
        _ => panic!("expected Generic"),
    }
}

#[test]
fn token_request_defaults() {
    let req = CreateTokenRequest { subject: "game".to_string(), duration_seconds: None, scopes: None };
    let (scopes, secs) = req.grant().ok().unwrap();
    assert_eq!(names(&scopes), vec!["read"]);
    assert_eq!(secs, DEFAULT_TOKEN_SECS);
    assert_eq!(DEFAULT_TOKEN_SECS, 31_536_000);
}

#[test]
fn token_request_with_explicit_values() {
    let req = CreateTokenRequest {
        subject: "ci".to_string(),
        duration_seconds: Some(60),
        scopes: Some(vec!["read".to_string(), "list".to_string()]),
    };
    let (scopes, secs) = req.grant().ok().unwrap();
    assert_eq!(names(&scopes), vec!["read", "list"]);
    assert_eq!(secs, 60);
}

#[test]
fn token_request_for_privileged_scopes_is_refused() {
    for scope in ["admin", "write"] {
        let req = CreateTokenRequest {
            subject: "x".to_string(),
            duration_seconds: None,
            scopes: Some(vec!["read".to_string(), scope.to_string()]),
        };
        match req.grant() {
            Err(AuthError::Forbidden(m)) => assert_eq!(m, "Cannot mint admin/write tokens."),
            _ => panic!("expected Forbidden"),
        }
    }
}

#[test]
fn api_error_responses() {
    let (code, body) = ApiError::Storage(StorageError::NotFound("x".to_string())).response();
    assert_eq!((code, body.as_str()), (404, "Asset not found"));
    let (code, body) = ApiError::Storage(StorageError::Generic("boom".to_string())).response();
    assert_eq!((code, body.as_str()), (500, "Storage backend error: boom"));
    let (code, body) = ApiError::Auth(AuthError::InvalidToken).response();
    assert_eq!((code, body.as_str()), (401, "Unauthorized"));
    let (code, body) = ApiError::Internal("oops".to_string()).response();
    assert_eq!((code, body.as_str()), (500, "Internal Server Error: oops"));
}

#[test]
fn error_messages() {
    assert_eq!(StorageError::Io("disk".to_string()).message(), "IO error: disk");
    assert_eq!(
        StorageError::Serialization("bad".to_string()).message(),
        "Manifest serialization error: bad"
    );
    assert_eq!(StorageError::NotFound("p".to_string()).message(), "Path not found: p");
    let e = StorageError::IntegrityMismatch { expected: "aa".to_string(), computed: "bb".to_string() };
    assert_eq!(e.message(), "Integrity check failed. Expected aa, got bb");
    assert!(StorageError::NotFound("p".to_string()).is_not_found());
    assert!(!e.is_not_found());
    assert_eq!(AuthError::InvalidToken.message(), "Invalid token");
    assert_eq!(AuthError::Forbidden("f".to_string()).message(), "Insufficient permissions: f");
    assert_eq!(AuthError::Generic("g".to_string()).message(), "Authentication provider error: g");
}

#[test]
fn github_login_url() {
    let cfg = GithubConfig {
        client_id: "cid".to_string(),
        client_secret: "SECRET-REDACTED".to_string(),
        redirect_uri: "http://localhost/cb".to_string(),
        required_org: None,
    };
    assert_eq!(
        cfg.login_url(),
        "https://github.com/login/oauth/authorize?client_id=cid&redirect_uri=http://localhost/cb&scope=read:user,read:org"
    );
}

#[test]
fn filesystem_paths() {
    let s = FileSystemStorage::new("./data".to_string());
    assert_eq!(s.root(), "./data");
    assert_eq!(s.get_path("abc"), "./data/abc");
    assert_eq!(s.get_path("manifests/v1"), "./data/manifests/v1");
    assert_eq!(s.get_path("/abs/x"), "/abs/x");
    let t = FileSystemStorage::new("root/".to_string());
    assert_eq!(t.get_path("abc"), "root/abc");
    assert_eq!(FileSystemStorage::staging_path("./data/abc"), "./data/abc.tmp");
    assert_eq!(FileSystemStorage::staging_path("./data/manifests/2024.1"), "./data/manifests/2024.1.tmp");
}

#[test]
fn manifest_lookup() {
    let info = |h: &str| AssetInfo { hash: h.to_string(), size: 1, mime_type: None };
    let m = AssetManifest {
        version: "v1".to_string(),
        published_at: Timestamp { unix_seconds: 0, nanos: 0 },
        published_by: "me".to_string(),
        assets: vec![("a.png".to_string(), info("h1")), ("b/c.txt".to_string(), info("h2"))],
    };
    assert_eq!(m.resolve_hash("b/c.txt"), Some("h2".to_string()));
    assert_eq!(m.resolve_hash("a.png"), Some("h1".to_string()));
    assert_eq!(m.resolve_hash("missing"), None);
}

#[test]
fn server_defaults() {
    let routes = AuthRoutes::default();
    assert_eq!(routes.login, "/auth/login");
    assert_eq!(routes.callback, "/auth/callback");
    assert_eq!(routes.token, "/auth/token");
    let server = AquilaServer::default();
    assert_eq!(server.config().jwt_secret, "");
    let custom = AquilaServer::new(AquilaSeverConfig { jwt_secret: "s".to_string(), routes });
    assert_eq!(custom.into_config().jwt_secret, "s");
    assert!(default_true());
}

#[test]
fn bearer_tokens() {
    assert_eq!(bearer_token("Bearer abc"), "abc");
    assert_eq!(bearer_token("Bearer  abc \t"), "abc");
    assert_eq!(bearer_token("  raw-token\n"), "raw-token");
    assert_eq!(bearer_token("bearer abc"), "bearer abc");
    assert_eq!(bearer_token("Bearer"), "Bearer");
    assert_eq!(bearer_token("Bearer \u{3000}"), "");
    assert_eq!(bearer_token(""), "");
}

#[test]
fn claims_expiry() {
    let c = Claims::issue("svc".to_string(), vec!["read".to_string()], 1_000, 60).unwrap();
    assert_eq!(c.exp, 1_060);
    assert_eq!(c.sub, "svc");
    let u = c.into_user();
    assert_eq!(u.id, "svc");
    assert_eq!(names(&u.scopes), vec!["read"]);
    assert!(Claims::issue("svc".to_string(), Vec::new(), u64::MAX, 1).is_none());
}
