use vstd::prelude::*;

use crate::common::{has_suffix, push_text, ends_with_text};
use crate::preview::{decimal, push_decimal};

verus! {

/// The service's settings.
#[derive(Debug)]
pub struct Config {
    pub database_url: String,
    pub port: u16,
    pub external_url: String,
}

/// Options of the `serve` command.
#[derive(Debug)]
pub struct ServeOpts {
    /// Use own database (to perform migrations).
    pub own_db: bool,
}

/// Options of the `db` command.
#[derive(Debug)]
pub struct DbOpts {
    /// Use own database (to perform migrations).
    pub own_db: bool,
    /// A query to run.
    pub query: Option<String>,
}

/// Why the settings cannot be used.
#[derive(Debug, PartialEq, Eq)]
pub enum ConfigError {
    /// The database address was not given.
    MissingDatabaseUrl,
    /// The port is not a decimal number below 65536.
    InvalidPort,
    /// The own database was asked for, but the address names another one.
    NotOwnDatabase,
}

/// Whether every character is an ASCII digit.
pub open spec fn all_digits(s: Seq<char>) -> bool {
    forall|i: int| 0 <= i < s.len() ==> '0' <= #[trigger] s[i] <= '9'
}

/// The value of a sequence of decimal digits.
pub open spec fn digits_value(s: Seq<char>) -> int
    decreases s.len(),
{
    if s.len() == 0 {
        0
    } else {
        digits_value(s.drop_last()) * 10 + (s.last() as int - '0' as int)
    }
}

/// The digits of a port text: what follows an optional leading `+`.
pub open spec fn port_digits(s: Seq<char>) -> Seq<char> {
    if s.len() > 0 && s[0] == '+' {
        s.drop_first()
    } else {
        s
    }
}

/// Whether `s` is a port number: an optional `+`, then at least one digit,
/// of a value below 65536.
pub open spec fn is_port_text(s: Seq<char>) -> bool {
    port_digits(s).len() > 0 && all_digits(port_digits(s)) && digits_value(port_digits(s))
        <= 65535
}

/// Relies on `u16`'s `FromStr`: an optional `+` followed by decimal digits
/// only, whose value fits.
#[verifier::external_body]
fn parse_port(s: &str) -> (r: Option<u16>)
    ensures
        r is Some <==> is_port_text(s@),
        r matches Some(p) ==> p as int == digits_value(port_digits(s@)),
{
    s.parse::<u16>().ok()
}

/// The port used when none is given.
pub const DEFAULT_PORT: u16 = 8080;

/// The external address used when none is given.
pub open spec fn default_external_url(port: u16) -> Seq<char> {
    "http://localhost:"@ + decimal(port as nat)
}

/// The address suffix that names the service's own database.
pub open spec fn own_db_suffix() -> Seq<char> {
    "/sqlxum_test"@
}

impl Config {
    /// Makes the settings from the values given for them: the database
    /// address, which is required; the port, 8080 when not given; the
    /// external address, `http://localhost:<port>` when not given.
    pub fn from_values(
        database_url: Option<String>,
        port: Option<String>,
        external_url: Option<String>,
    ) -> (r: Result<Config, ConfigError>)
        ensures
            database_url is None ==> r == Err::<Config, ConfigError>(ConfigError::MissingDatabaseUrl),
            database_url is Some && port is Some && !is_port_text(port->Some_0@) ==> r
                == Err::<Config, ConfigError>(ConfigError::InvalidPort),
            r matches Ok(c) ==> {
                &&& database_url is Some
                &&& c.database_url@ == database_url->Some_0@
                &&& match port {
                    Some(p) => is_port_text(p@) && c.port as int == digits_value(port_digits(p@)),
                    None => c.port == DEFAULT_PORT,
                }
                &&& match external_url {
                    Some(e) => c.external_url@ == e@,
                    None => c.external_url@ == default_external_url(c.port),
                }
            },
            database_url is Some && (port is None || is_port_text(port->Some_0@)) ==> r is Ok,
    {
        let database_url = match database_url {
            Some(u) => u,
            None => return Err(ConfigError::MissingDatabaseUrl),
        };
        let port: u16 = match port {
            Some(p) => match parse_port(p.as_str()) {
                Some(n) => n,
                None => return Err(ConfigError::InvalidPort),
            },
            None => DEFAULT_PORT,
        };
        let external_url = match external_url {
            Some(e) => e,
            None => {
                let mut e = String::new();
                push_text(&mut e, "http://localhost:");
                push_decimal(&mut e, port as u64);
                e
            },
        };
        Ok(Config { database_url, port, external_url })
    }

    /// The address of the service's API under its external address.
    pub fn api_url(&self) -> (r: String)
        ensures
            r@ == self.external_url@ + "/api"@,
    {
        let mut r = self.external_url.clone();
        push_text(&mut r, "/api");
        r
    }

    /// Where the API documentation's description is served from, as seen by
    /// its viewer: behind a proxy under `/sqlxum` when the external address
    /// ends with it.
    pub fn openapi_json_path(&self) -> (r: &'static str)
        ensures
            has_suffix(self.external_url@, "/sqlxum"@) ==> r@ == "/sqlxum/api-docs/openapi.json"@,
            !has_suffix(self.external_url@, "/sqlxum"@) ==> r@ == "/api-docs/openapi.json"@,
    {
        if ends_with_text(self.external_url.as_str(), "/sqlxum") {
            "/sqlxum/api-docs/openapi.json"
        } else {
            "/api-docs/openapi.json"
        }
    }
}

/// Checks that asking for the own database (to run migrations on it) names
/// the database set aside for that.
pub fn check_for_own_db(opts: &ServeOpts, config: &Config) -> (r: Result<(), ConfigError>)
    ensures
        r is Err <==> opts.own_db && !has_suffix(config.database_url@, own_db_suffix()),
        r matches Err(e) ==> e == ConfigError::NotOwnDatabase,
{
    if opts.own_db && !ends_with_text(config.database_url.as_str(), "/sqlxum_test") {
        return Err(ConfigError::NotOwnDatabase);
    }
    Ok(())
}

impl ConfigError {
    /// A message for the user.
    pub fn message(&self) -> (r: &'static str)
        ensures
            *self == ConfigError::MissingDatabaseUrl ==> r@ == "envvar 'DATABASE_URL' not set"@,
            *self == ConfigError::InvalidPort ==> r@ == "invalid port number"@,
            *self == ConfigError::NotOwnDatabase ==> r@
                == "Database name must be 'sqlxum_test' when using the --own-db option"@,
    {
        match self {
            ConfigError::MissingDatabaseUrl => "envvar 'DATABASE_URL' not set",
            ConfigError::InvalidPort => "invalid port number",
            ConfigError::NotOwnDatabase => "Database name must be 'sqlxum_test' when using the --own-db option",
        }
    }
}

} // verus!
