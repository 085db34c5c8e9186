//! The service's settings, checked and completed with their defaults.
use vstd::prelude::*;
use vstd::utf8::encode_utf8;
use crate::text::{owned, parse_u64, all_digits, decimal_value};

verus! {

/// The shortest session secret accepted, in bytes.
pub const MIN_SESSION_SECRET_BYTES: usize = 32;

/// Feed page size when none is configured.
pub const DEFAULT_POSTS_PER_PAGE: u64 = 50;

pub struct Config {
    pub database_url: String,
    pub admin_username: String,
    pub admin_password: String,
    pub session_secret: String,
    pub bind_host: String,
    pub uploads_path: String,
    pub graphicsmagick_path: String,
    pub posts_per_page: u64,
    pub restore_path: Option<String>,
}

/// The raw settings, each absent when it was not given.
pub struct ConfigVars {
    pub database_url: Option<String>,
    pub admin_username: Option<String>,
    pub admin_password: Option<String>,
    pub session_secret: Option<String>,
    pub bind_host: Option<String>,
    pub uploads_path: Option<String>,
    pub graphicsmagick_path: Option<String>,
    pub posts_per_page: Option<String>,
    pub restore_path: Option<String>,
}

/// Why the settings are refused.
#[derive(PartialEq, Eq, Structural)]
pub enum ConfigError {
    MissingSessionSecret,
    SessionSecretTooShort,
    MissingDatabaseUrl,
    MissingAdminUsername,
    MissingAdminPassword,
    InvalidPostsPerPage,
    MissingUploadsPath,
}

/// The length in bytes of the UTF-8 encoding of `s`, as `str::len` reports it.
pub open spec fn utf8_len(s: Seq<char>) -> usize {
    encode_utf8(s).len() as usize
}

/// The first fault of the settings, in the order they are checked, if any.
pub open spec fn config_fault(v: ConfigVars) -> Option<ConfigError> {
    if v.session_secret is None {
        Some(ConfigError::MissingSessionSecret)
    } else if utf8_len(v.session_secret->0@) < MIN_SESSION_SECRET_BYTES {
        Some(ConfigError::SessionSecretTooShort)
    } else if v.database_url is None {
        Some(ConfigError::MissingDatabaseUrl)
    } else if v.admin_username is None {
        Some(ConfigError::MissingAdminUsername)
    } else if v.admin_password is None {
        Some(ConfigError::MissingAdminPassword)
    } else if v.posts_per_page is Some && !(all_digits(v.posts_per_page->0@) && decimal_value(
        v.posts_per_page->0@,
    ) <= u64::MAX) {
        Some(ConfigError::InvalidPostsPerPage)
    } else if v.uploads_path is None {
        Some(ConfigError::MissingUploadsPath)
    } else {
        None
    }
}

/// The view of an optional string.
pub open spec fn opt_view(o: Option<String>) -> Option<Seq<char>> {
    match o {
        Some(s) => Some(s@),
        None => None,
    }
}

impl Config {
    /// Checks the raw settings and fills in the defaults: the bind address
    /// `127.0.0.1:8080`, the program `gm`, fifty posts per page and no restore
    /// file.
    pub fn from_vars(vars: ConfigVars) -> (r: Result<Config, ConfigError>)
        ensures
            r is Err <==> config_fault(vars) is Some,
            r is Err ==> Some(r->Err_0) == config_fault(vars),
            r is Ok ==> {
                let c = r->Ok_0;
                &&& c.session_secret@ == vars.session_secret->0@
                &&& c.database_url@ == vars.database_url->0@
                &&& c.admin_username@ == vars.admin_username->0@
                &&& c.admin_password@ == vars.admin_password->0@
                &&& c.uploads_path@ == vars.uploads_path->0@
                &&& c.bind_host@ == if vars.bind_host is Some {
                    vars.bind_host->0@
                } else {
                    "127.0.0.1:8080"@
                }
                &&& c.graphicsmagick_path@ == if vars.graphicsmagick_path is Some {
                    vars.graphicsmagick_path->0@
                } else {
                    "gm"@
                }
                &&& c.posts_per_page == if vars.posts_per_page is Some {
                    decimal_value(vars.posts_per_page->0@)
                } else {
                    DEFAULT_POSTS_PER_PAGE as nat
                }
                &&& opt_view(c.restore_path) == opt_view(vars.restore_path)
            },
    {
        let ghost v = vars;
        let ConfigVars {
            database_url,
            admin_username,
            admin_password,
            session_secret,
            bind_host,
            uploads_path,
            graphicsmagick_path,
            posts_per_page,
            restore_path,
        } = vars;
        let session_secret = match session_secret {
            Some(s) => s,
            None => {
                return Err(ConfigError::MissingSessionSecret);
            },
        };
        let secret_bytes = session_secret.as_str().len();
        if secret_bytes < MIN_SESSION_SECRET_BYTES {
            return Err(ConfigError::SessionSecretTooShort);
        }
        let database_url = match database_url {
            Some(s) => s,
            None => {
                return Err(ConfigError::MissingDatabaseUrl);
            },
        };
        let admin_username = match admin_username {
            Some(s) => s,
            None => {
                return Err(ConfigError::MissingAdminUsername);
            },
        };
        let admin_password = match admin_password {
            Some(s) => s,
            None => {
                return Err(ConfigError::MissingAdminPassword);
            },
        };
        let posts_per_page = match posts_per_page {
            Some(s) => match parse_u64(s.as_str()) {
                Some(n) => n,
                None => {
                    return Err(ConfigError::InvalidPostsPerPage);
                },
            },
            None => DEFAULT_POSTS_PER_PAGE,
        };
        let uploads_path = match uploads_path {
            Some(s) => s,
            None => {
                return Err(ConfigError::MissingUploadsPath);
            },
        };
        let bind_host = match bind_host {
            Some(s) => s,
            None => owned("127.0.0.1:8080"),
        };
        let graphicsmagick_path = match graphicsmagick_path {
            Some(s) => s,
            None => owned("gm"),
        };
        Ok(
            Config {
                database_url,
                admin_username,
                admin_password,
                session_secret,
                bind_host,
                uploads_path,
                graphicsmagick_path,
                posts_per_page,
                restore_path,
            },
        )
    }
}

} // verus!
