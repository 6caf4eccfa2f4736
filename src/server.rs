//! Configuration of the HTTP service.

use vstd::prelude::*;
use vstd::string::*;

verus! {

/// Where the authentication endpoints are mounted.
#[derive(Clone, Debug)]
pub struct AuthRoutes {
    pub login: String,
    pub callback: String,
    pub token: String,
}

impl Default for AuthRoutes {
    fn default() -> (r: Self)
        ensures
            r.login@ == "/auth/login"@,
            r.callback@ == "/auth/callback"@,
            r.token@ == "/auth/token"@,
    {
        AuthRoutes {
            login: String::from_str("/auth/login"),
            callback: String::from_str("/auth/callback"),
            token: String::from_str("/auth/token"),
        }
    }
}

#[derive(Clone, Debug)]
pub struct AquilaSeverConfig {
    /// The secret that signs issued tokens.
    pub jwt_secret: String,
    pub routes: AuthRoutes,
}

impl Default for AquilaSeverConfig {
    fn default() -> (r: Self)
        ensures
            r.jwt_secret@ == Seq::<char>::empty(),
            r.routes.login@ == "/auth/login"@,
            r.routes.callback@ == "/auth/callback"@,
            r.routes.token@ == "/auth/token"@,
    {
        AquilaSeverConfig { jwt_secret: String::new(), routes: AuthRoutes::default() }
    }
}

/// Builds the service from a configuration.
#[derive(Clone, Debug)]
pub struct AquilaServer {
    config: AquilaSeverConfig,
}

impl AquilaServer {
    pub closed spec fn config_spec(&self) -> AquilaSeverConfig {
        self.config
    }

    pub fn new(config: AquilaSeverConfig) -> (r: Self)
        ensures
            r.config_spec() == config,
    {
        AquilaServer { config }
    }

    pub fn config(&self) -> (r: &AquilaSeverConfig)
        ensures
            *r == self.config_spec(),
    {
        &self.config
    }

    pub fn into_config(self) -> (r: AquilaSeverConfig)
        ensures
            r == self.config_spec(),
    {
        self.config
    }
}

impl Default for AquilaServer {
    fn default() -> (r: Self)
        ensures
            r.config_spec().jwt_secret@ == Seq::<char>::empty(),
            r.config_spec().routes.login@ == "/auth/login"@,
            r.config_spec().routes.callback@ == "/auth/callback"@,
            r.config_spec().routes.token@ == "/auth/token"@,
    {
        AquilaServer { config: AquilaSeverConfig::default() }
    }
}

} // verus!
