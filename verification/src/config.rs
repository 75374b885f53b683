//! Connection settings read from the process environment.
//!
//! The four required variables are handed in as plain optional strings; a
//! full set of them yields a configuration, and a missing one yields
//! nothing, so the caller stops before any connection is attempted.

use vstd::prelude::*;

verus! {

/// The names of the four required environment variables, in the order the
/// script reads them.
pub open spec fn spec_required_env_vars() -> Seq<Seq<char>> {
    seq!["CASSANDRA_URI"@, "CASSANDRA_SSL_CERT_PATH"@, "CASSANDRA_USER"@, "CASSANDRA_PASSWORD"@]
}

/// The names of the four required environment variables.
pub fn required_env_vars() -> (r: Vec<&'static str>)
    ensures
        r@.len() == 4,
        r@.map_values(|s: &str| s@) =~= spec_required_env_vars(),
{
    let names = vec![
        "CASSANDRA_URI",
        "CASSANDRA_SSL_CERT_PATH",
        "CASSANDRA_USER",
        "CASSANDRA_PASSWORD",
    ];
    proof {
        assert(names@.map_values(|s: &str| s@) =~= spec_required_env_vars());
    }
    names
}

/// The validated connection settings.
pub struct Config {
    pub uri: String,
    pub cert_path: String,
    pub user: String,
    pub password: String,
}

impl Config {
    /// Builds the settings from the values of the four environment
    /// variables, in the order of [`spec_required_env_vars`]. A
    /// configuration comes back exactly when all four are present, and it
    /// holds them unchanged; with any of them missing nothing comes back,
    /// and the caller has nothing to connect with.
    pub fn from_env_values(
        uri: Option<String>,
        cert_path: Option<String>,
        user: Option<String>,
        password: Option<String>,
    ) -> (r: Option<Config>)
        ensures
            r is Some <==> (uri is Some && cert_path is Some && user is Some && password is Some),
            r matches Some(c) ==> {
                &&& uri matches Some(u) && c.uri@ == u@
                &&& cert_path matches Some(p) && c.cert_path@ == p@
                &&& user matches Some(s) && c.user@ == s@
                &&& password matches Some(w) && c.password@ == w@
            },
    {
        match (uri, cert_path, user, password) {
            (Some(uri), Some(cert_path), Some(user), Some(password)) => Some(
                Config { uri, cert_path, user, password },
            ),
            _ => None,
        }
    }

    /// The line printed once the connection is open.
    pub fn connected_line(&self) -> (r: String)
        ensures
            r@ == "Connected to cassandra: "@ + self.uri@,
    {
        let mut line = String::new();
        line.append("Connected to cassandra: ");
        line.append(self.uri.as_str());
        proof {
            assert(line@ =~= "Connected to cassandra: "@ + self.uri@);
        }
        line
    }
}

} // verus!
