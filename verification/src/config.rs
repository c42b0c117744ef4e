//! Connection configuration: a descriptor built from named configuration
//! values, with documented defaults and a required secret.

use vstd::prelude::*;
use vstd::string::StringExecFns;

verus! {

/// A configuration failure: the secret has no default, so its absence is
/// fatal for every operation that needs a connection.
#[derive(Clone, Copy, PartialEq, Eq, Structural, Debug)]
pub enum ConfigError {
    MissingSecret,
}

impl ConfigError {
    /// The boundary string for this error.
    pub fn message(&self) -> (r: String)
        ensures
            r@ == "DB_PASSWORD environment variable is required"@,
    {
        "DB_PASSWORD environment variable is required".to_owned()
    }
}

/// An immutable bundle of connection parameters.
#[derive(Debug)]
pub struct Descriptor {
    pub host: String,
    pub port: String,
    pub user: String,
    pub secret: String,
    pub dbname: String,
    pub sslmode: String,
}

/// The configuration value, or the default where none was supplied.
pub open spec fn value_or(v: Option<String>, default: Seq<char>) -> Seq<char> {
    if v is Some {
        v->Some_0@
    } else {
        default
    }
}

/// Builds a descriptor from optional configuration values, applying the
/// documented defaults. The secret has no default: its absence yields
/// `ConfigError::MissingSecret` and nothing else does.
pub fn build_descriptor(
    host: Option<String>,
    port: Option<String>,
    user: Option<String>,
    secret: Option<String>,
    dbname: Option<String>,
) -> (r: Result<Descriptor, ConfigError>)
    ensures
        r is Ok <==> secret is Some,
        secret is None ==> r == Result::<Descriptor, ConfigError>::Err(
            ConfigError::MissingSecret,
        ),
        r matches Ok(d) ==> {
            &&& d.secret@ == secret->Some_0@
            &&& d.host@ == value_or(host, "localhost"@)
            &&& d.port@ == value_or(port, "5432"@)
            &&& d.user@ == value_or(user, "postgres"@)
            &&& d.dbname@ == value_or(dbname, "defaultdb"@)
            &&& d.sslmode@ == "disable"@
        },
{
    let secret = match secret {
        Some(s) => s,
        None => {
            return Err(ConfigError::MissingSecret);
        },
    };
    let host = match host {
        Some(h) => h,
        None => "localhost".to_owned(),
    };
    let port = match port {
        Some(p) => p,
        None => "5432".to_owned(),
    };
    let user = match user {
        Some(u) => u,
        None => "postgres".to_owned(),
    };
    let dbname = match dbname {
        Some(d) => d,
        None => "defaultdb".to_owned(),
    };
    let sslmode = "disable".to_owned();
    Ok(Descriptor { host, port, user, secret, dbname, sslmode })
}

/// The connection string a descriptor denotes, in the keyword=value form the
/// transport expects: host, user, password, dbname, port, sslmode, in that
/// order, separated by single spaces.
pub fn connection_string(d: &Descriptor) -> (r: String)
    ensures
        r@ == "host="@ + d.host@ + " user="@ + d.user@ + " password="@ + d.secret@ + " dbname="@
            + d.dbname@ + " port="@ + d.port@ + " sslmode="@ + d.sslmode@,
{
    let mut s = String::new();
    s.append("host=");
    s.append(d.host.as_str());
    s.append(" user=");
    s.append(d.user.as_str());
    s.append(" password=");
    s.append(d.secret.as_str());
    s.append(" dbname=");
    s.append(d.dbname.as_str());
    s.append(" port=");
    s.append(d.port.as_str());
    s.append(" sslmode=");
    s.append(d.sslmode.as_str());
    proof {
        assert(s@ =~= "host="@ + d.host@ + " user="@ + d.user@ + " password="@ + d.secret@
            + " dbname="@ + d.dbname@ + " port="@ + d.port@ + " sslmode="@ + d.sslmode@);
    }
    s
}

/// Builds the full connection string from optional configuration values in
/// one step: the descriptor, then its rendering. Exactly a missing secret
/// fails, with `ConfigError::MissingSecret`, before anything else happens —
/// every operation that needs a connection starts here, so that failure
/// precedes any network attempt.
pub fn build_connection_string(
    host: Option<String>,
    port: Option<String>,
    user: Option<String>,
    secret: Option<String>,
    dbname: Option<String>,
) -> (r: Result<String, ConfigError>)
    ensures
        r is Ok <==> secret is Some,
        secret is None ==> r == Result::<String, ConfigError>::Err(ConfigError::MissingSecret),
        r matches Ok(cs) ==> cs@ == "host="@ + value_or(host, "localhost"@) + " user="@ + value_or(
            user,
            "postgres"@,
        ) + " password="@ + secret->Some_0@ + " dbname="@ + value_or(dbname, "defaultdb"@)
            + " port="@ + value_or(port, "5432"@) + " sslmode="@ + "disable"@,
{
    let d = match build_descriptor(host, port, user, secret, dbname) {
        Ok(d) => d,
        Err(e) => {
            return Err(e);
        },
    };
    Ok(connection_string(&d))
}

/// Whether a mode value selects the mock store rather than the live one:
/// exactly the value "mock" does, and an absent value does not.
pub fn mock_mode(mode: Option<String>) -> (r: bool)
    ensures
        r <==> (mode matches Some(m) && m@ == "mock"@),
{
    match mode {
        Some(m) => {
            let target: String = "mock".to_owned();
            m == target
        },
        None => false,
    }
}

} // verus!
