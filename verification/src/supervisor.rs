//! The single point of mutation for the current connection: at most one is
//! held, start and stop requests serialize on it, and a restart always stops
//! the old connection before the new one's flag is set.

use vstd::prelude::*;
use vstd::string::*;
use crate::config::{AppConfig, MAX_TIMEOUT_SECONDS};
use crate::config::{has_allowed_scheme, url_has_allowed_scheme};
use crate::stream::GotifyConnection;
use crate::text::{is_blank, str_is_blank};

verus! {

/// The checks of the start command: an address that is not blank and carries
/// an accepted scheme, a credential that is not blank, and a timeout within
/// bounds.
pub open spec fn start_request_ok(url: Seq<char>, token: Seq<char>, timeout_seconds: u64) -> bool {
    &&& !is_blank(url)
    &&& !is_blank(token)
    &&& 0 < timeout_seconds <= MAX_TIMEOUT_SECONDS
    &&& has_allowed_scheme(url)
}

/// The checks of the save command: builds the configuration to persist
/// exactly when its inputs pass validation, and names the first failing check
/// otherwise.
pub fn save_config(server_url: String, token: String, timeout_seconds: u64) -> (r: Result<
    AppConfig,
    String,
>)
    ensures
        r is Ok <==> (AppConfig { server_url, token, timeout_seconds }).valid(),
        (r matches Ok(c) ==> c == (AppConfig { server_url, token, timeout_seconds })),
        timeout_seconds == 0 ==> (r matches Err(m) && m@ == "timeout must be greater than 0"@),
        timeout_seconds > MAX_TIMEOUT_SECONDS ==> (r matches Err(m) && m@
            == "timeout must not exceed 300 seconds"@),
        (0 < timeout_seconds <= MAX_TIMEOUT_SECONDS && !is_blank(server_url@)
            && !has_allowed_scheme(server_url@)) ==> (r matches Err(m) && m@
            == "server url must begin with http://, https://, ws:// or wss://"@),
{
    let config = AppConfig { server_url, token, timeout_seconds };
    match config.validate() {
        Ok(()) => Ok(config),
        Err(message) => Err(message),
    }
}

/// Holds at most one current connection.
pub struct AppState {
    pub gotify_connection: Option<GotifyConnection>,
}

impl AppState {
    /// A state holding no connection.
    pub fn new() -> (s: Self)
        ensures
            s.gotify_connection is None,
    {
        AppState { gotify_connection: None }
    }

    /// Requests stop on the current connection, if any, and clears the slot.
    /// With no active connection this is a no-op. The stopped connection is
    /// handed back so the caller can await its loop's exit.
    pub fn stop_gotify_connection(&mut self) -> (r: Option<GotifyConnection>)
        ensures
            final(self).gotify_connection is None,
            old(self).gotify_connection is None ==> r is None,
            (old(self).gotify_connection matches Some(c) ==> (r matches Some(p) && !p.running
                && p.config == c.config)),
    {
        match self.gotify_connection.take() {
            Some(mut connection) => {
                connection.stop();
                Some(connection)
            },
            None => None,
        }
    }

    /// Starts a fresh connection after the command checks: any current
    /// connection is stopped and discarded first, so its flag is already
    /// cleared when the new one's is set — never two flags set for this slot.
    /// On success the previous connection, already stopped, is handed back;
    /// a rejected request leaves the state untouched.
    pub fn start_gotify_connection(
        &mut self,
        server_url: String,
        token: String,
        timeout_seconds: u64,
    ) -> (r: Result<Option<GotifyConnection>, String>)
        ensures
            r is Ok <==> start_request_ok(server_url@, token@, timeout_seconds),
            (r matches Ok(prev) ==> {
                &&& (final(self).gotify_connection matches Some(n) && n.running
                    && n.config.server_url == server_url && n.config.token == token
                    && n.config.timeout_seconds == timeout_seconds)
                &&& (old(self).gotify_connection is None <==> prev is None)
                &&& (old(self).gotify_connection matches Some(c) ==> (prev matches Some(p)
                    && !p.running && p.config == c.config))
            }),
            r is Err ==> final(self).gotify_connection == old(self).gotify_connection,
            is_blank(server_url@) ==> (r matches Err(m) && m@ == "server url must not be empty"@),
            (!is_blank(server_url@) && is_blank(token@)) ==> (r matches Err(m) && m@
                == "token must not be empty"@),
            (!is_blank(server_url@) && !is_blank(token@) && timeout_seconds == 0) ==> (
            r matches Err(m) && m@ == "timeout must be greater than 0"@),
            (!is_blank(server_url@) && !is_blank(token@) && timeout_seconds > MAX_TIMEOUT_SECONDS)
                ==> (r matches Err(m) && m@ == "timeout must not exceed 300 seconds"@),
            (!is_blank(server_url@) && !is_blank(token@) && 0 < timeout_seconds
                <= MAX_TIMEOUT_SECONDS && !has_allowed_scheme(server_url@)) ==> (r matches Err(m)
                && m@ == "server url must begin with http://, https://, ws:// or wss://"@),
    {
        if str_is_blank(server_url.as_str()) {
            return Err(String::from_str("server url must not be empty"));
        }
        if str_is_blank(token.as_str()) {
            return Err(String::from_str("token must not be empty"));
        }
        if timeout_seconds == 0 {
            return Err(String::from_str("timeout must be greater than 0"));
        }
        if timeout_seconds > MAX_TIMEOUT_SECONDS {
            return Err(String::from_str("timeout must not exceed 300 seconds"));
        }
        if !url_has_allowed_scheme(server_url.as_str()) {
            return Err(
                String::from_str("server url must begin with http://, https://, ws:// or wss://"),
            );
        }
        let previous = self.stop_gotify_connection();
        let config = AppConfig { server_url, token, timeout_seconds };
        let mut connection = GotifyConnection::new(config);
        connection.start();
        self.gotify_connection = Some(connection);
        Ok(previous)
    }
}

} // verus!
