//! The endpoint a connection is opened to, and its validation: a configuration
//! that fails these checks never reaches the connection core.

use vstd::prelude::*;
use vstd::string::*;
use crate::text::{is_blank, starts_with, str_is_blank, str_starts_with};

verus! {

/// Largest accepted timeout, in seconds.
pub const MAX_TIMEOUT_SECONDS: u64 = 300;

/// The endpoint the client connects to: server address, bearer credential and
/// a bounded timeout.
#[derive(Clone, Debug)]
pub struct AppConfig {
    pub server_url: String,
    pub token: String,
    pub timeout_seconds: u64,
}

/// The address carries one of the accepted URI schemes.
pub open spec fn has_allowed_scheme(url: Seq<char>) -> bool {
    ||| starts_with(url, "http://"@)
    ||| starts_with(url, "https://"@)
    ||| starts_with(url, "ws://"@)
    ||| starts_with(url, "wss://"@)
}

/// Whether `url` begins with one of the accepted URI schemes.
pub fn url_has_allowed_scheme(url: &str) -> (r: bool)
    ensures
        r == has_allowed_scheme(url@),
{
    str_starts_with(url, "http://") || str_starts_with(url, "https://") || str_starts_with(
        url,
        "ws://",
    ) || str_starts_with(url, "wss://")
}

impl AppConfig {
    /// A configuration is valid when the timeout lies within bounds and a
    /// server address that is not blank carries an accepted scheme. A blank
    /// address is the unconfigured state and is accepted.
    pub open spec fn valid(self) -> bool {
        &&& 0 < self.timeout_seconds <= MAX_TIMEOUT_SECONDS
        &&& (is_blank(self.server_url@) || has_allowed_scheme(self.server_url@))
    }

    /// Checks the configuration: accepts it exactly when it is valid, and
    /// names the first failing check otherwise.
    pub fn validate(&self) -> (r: Result<(), String>)
        ensures
            r is Ok <==> self.valid(),
            self.timeout_seconds == 0 ==> (r matches Err(m) && m@ == "timeout must be greater than 0"@),
            self.timeout_seconds > MAX_TIMEOUT_SECONDS ==> (r matches Err(m) && m@
                == "timeout must not exceed 300 seconds"@),
            (0 < self.timeout_seconds <= MAX_TIMEOUT_SECONDS && !is_blank(self.server_url@)
                && !has_allowed_scheme(self.server_url@)) ==> (r matches Err(m) && m@
                == "server url must begin with http://, https://, ws:// or wss://"@),
    {
        if self.timeout_seconds == 0 {
            return Err(String::from_str("timeout must be greater than 0"));
        }
        if self.timeout_seconds > MAX_TIMEOUT_SECONDS {
            return Err(String::from_str("timeout must not exceed 300 seconds"));
        }
        if !str_is_blank(self.server_url.as_str()) && !url_has_allowed_scheme(
            self.server_url.as_str(),
        ) {
            return Err(
                String::from_str("server url must begin with http://, https://, ws:// or wss://"),
            );
        }
        Ok(())
    }

    /// A copy whose fields equal this configuration's.
    pub fn duplicate(&self) -> (c: Self)
        ensures
            c == *self,
    {
        AppConfig {
            server_url: self.server_url.clone(),
            token: self.token.clone(),
            timeout_seconds: self.timeout_seconds,
        }
    }
}

impl Default for AppConfig {
    /// The configuration used when none is stored: no server, no credential,
    /// a five-second timeout.
    fn default() -> (c: Self)
        ensures
            c.server_url@.len() == 0,
            c.token@.len() == 0,
            c.timeout_seconds == 5,
    {
        AppConfig { server_url: String::new(), token: String::new(), timeout_seconds: 5 }
    }
}

} // verus!
