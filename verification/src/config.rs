//! Client configuration: the REST endpoint, display preferences, and the
//! stream connection's parameters, together with the derivation of the
//! stream endpoint from the REST endpoint. Loading and saving the file is
//! the caller's business.

use vstd::prelude::*;

use crate::text::{
    contains_seq, has_suffix, replace_seq, str_contains, str_has_suffix, str_replace,
    str_trim_end_char, trimmed_end,
};

verus! {

/// The stream connection's configurable parameters as they appear in the
/// configuration file; an absent url means it is derived from the REST
/// endpoint.
#[derive(Debug, PartialEq)]
pub struct WebSocketConfig {
    pub url: Option<String>,
    pub reconnect_max_attempts: u32,
    pub reconnect_delay_ms: u64,
    pub ping_interval_secs: u64,
    pub enable_progress: bool,
}

impl Default for WebSocketConfig {
    /// The default stream parameters: derive the url, five reconnection
    /// attempts, a one-second initial delay, a thirty-second heartbeat,
    /// progress streaming on.
    fn default() -> (r: Self)
        ensures
            r.url is None,
            r.reconnect_max_attempts == 5,
            r.reconnect_delay_ms == 1000,
            r.ping_interval_secs == 30,
            r.enable_progress == true,
    {
        WebSocketConfig {
            url: None,
            reconnect_max_attempts: 5,
            reconnect_delay_ms: 1000,
            ping_interval_secs: 30,
            enable_progress: true,
        }
    }
}

/// The whole client configuration.
#[derive(Debug, PartialEq)]
pub struct Config {
    pub api_endpoint: String,
    pub api_key: Option<String>,
    pub user_email: Option<String>,
    pub default_format: String,
    pub color_output: bool,
    pub verbose: bool,
    pub websocket: WebSocketConfig,
}

/// The stream endpoint derived from a REST endpoint: the scheme becomes its
/// stream equivalent, and the stream path is grafted onto the API path.
pub open spec fn derived_ws_url(api: Seq<char>) -> Seq<char> {
    let base = replace_seq(replace_seq(api, "http://"@, "ws://"@), "https://"@, "wss://"@);
    if has_suffix(base, "/api/v1"@) {
        base + "/ws"@
    } else if contains_seq(base, "/api/v1"@) {
        replace_seq(base, "/api/v1"@, "/api/v1/ws"@)
    } else {
        trimmed_end(base, '/') + "/api/v1/ws"@
    }
}

impl Default for Config {
    /// The default configuration, pointing at a local endpoint.
    fn default() -> (r: Self)
        ensures
            r.api_endpoint@ == "http://localhost:8080/api/v1"@,
            r.api_key is None,
            r.user_email is None,
            r.default_format@ == "text"@,
            r.color_output == true,
            r.verbose == false,
            r.websocket.url is None,
            r.websocket.reconnect_max_attempts == 5,
            r.websocket.reconnect_delay_ms == 1000,
            r.websocket.ping_interval_secs == 30,
            r.websocket.enable_progress == true,
    {
        Config {
            api_endpoint: String::from_str("http://localhost:8080/api/v1"),
            api_key: None,
            user_email: None,
            default_format: String::from_str("text"),
            color_output: true,
            verbose: false,
            websocket: WebSocketConfig::default(),
        }
    }
}

impl Config {
    /// The stream endpoint in force: the configured override if one is
    /// set, else the endpoint derived from the REST endpoint.
    pub open spec fn spec_websocket_url(&self) -> Seq<char> {
        match self.websocket.url {
            Some(u) => u@,
            None => derived_ws_url(self.api_endpoint@),
        }
    }

    /// Returns the stream endpoint in force.
    pub fn get_websocket_url(&self) -> (r: String)
        ensures
            r@ == self.spec_websocket_url(),
    {
        if let Some(url) = &self.websocket.url {
            return url.clone();
        }
        proof {
            reveal_strlit("http://");
            reveal_strlit("https://");
            reveal_strlit("/api/v1");
        }
        let step = str_replace(self.api_endpoint.as_str(), "http://", "ws://");
        let base = str_replace(step.as_str(), "https://", "wss://");
        if str_has_suffix(base.as_str(), "/api/v1") {
            let mut out = base;
            out.append("/ws");
            out
        } else if str_contains(base.as_str(), "/api/v1") {
            str_replace(base.as_str(), "/api/v1", "/api/v1/ws")
        } else {
            let trimmed = str_trim_end_char(base.as_str(), '/');
            let mut out = String::from_str(trimmed);
            out.append("/api/v1/ws");
            out
        }
    }

    /// The defaults, for the caller that persists them as the new
    /// configuration.
    pub fn reset() -> (r: Config)
        ensures
            r.api_endpoint@ == "http://localhost:8080/api/v1"@,
            r.api_key is None,
            r.user_email is None,
            r.default_format@ == "text"@,
            r.websocket.url is None,
    {
        Config::default()
    }
}

} // verus!
