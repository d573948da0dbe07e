//! The session client: one long-lived HTTP client per run, configured with
//! persistent cookie storage and a browser-like identity string, shared by
//! reference with whichever operation runs.
//!
//! The client itself comes from the reqwest crate and is opaque here; what
//! this module owns and states is the configuration it is built from.

use vstd::prelude::*;

verus! {

/// An HTTP client of the reqwest crate.  Opaque to the contracts: it is
/// built once and carried through to the retrieval library.
#[verifier::external_type_specification]
#[verifier::external_body]
pub struct ExClient(reqwest::Client);

/// How the session client is configured: the outbound identity string,
/// whether cookies persist across its requests, and an optional overall
/// request timeout in milliseconds (none means no built-in timeout).
pub struct SessionConfig {
    pub user_agent: String,
    pub cookie_store: bool,
    pub timeout_ms: Option<u64>,
}

/// The identity string sent by default: a realistic browser signature, a
/// deliberate policy against trivial bot-blocking upstream.
pub open spec fn spec_default_user_agent() -> Seq<char> {
    "Mozilla/5.0 (Windows NT 10.0; Win64; x64) AppleWebKit/537.36 (KHTML, like Gecko) Chrome/140.0.0.0 Safari/537.36"@
}

/// The configuration every run starts from: browser-like identity, cookie
/// persistence on, no built-in timeout.
pub fn default_session_config() -> (c: SessionConfig)
    ensures
        c.user_agent@ == spec_default_user_agent(),
        c.cookie_store == true,
        c.timeout_ms is None,
{
    SessionConfig {
        user_agent:
            "Mozilla/5.0 (Windows NT 10.0; Win64; x64) AppleWebKit/537.36 (KHTML, like Gecko) Chrome/140.0.0.0 Safari/537.36".to_owned(),
        cookie_store: true,
        timeout_ms: None,
    }
}

/// Why the session client could not be built; fatal, since no operation
/// may run without a session.
#[derive(Debug)]
pub struct SessionError {
    pub message: String,
}

impl SessionError {
    pub fn text(&self) -> (m: &String)
        ensures
            m@ == self.message@,
    {
        &self.message
    }
}

/// Relies on reqwest::ClientBuilder (cookie_store, user_agent, timeout,
/// build) to construct the client from this configuration; build makes no
/// network call and fails only on a configuration the crate refuses.
#[verifier::external_body]
fn build_client(cfg: &SessionConfig) -> (r: Result<reqwest::Client, SessionError>) {
    let mut b = reqwest::Client::builder().cookie_store(cfg.cookie_store).user_agent(
        cfg.user_agent.as_str(),
    );
    if let Some(ms) = cfg.timeout_ms {
        b = b.timeout(core::time::Duration::from_millis(ms));
    }
    match b.build() {
        Ok(c) => Ok(c),
        Err(e) => Err(SessionError { message: e.to_string() }),
    }
}

/// The one session of a run.  It is constructed once at process start and
/// handed by reference to exactly one operation; cookie state changes only
/// inside the HTTP stack as calls go through the client.
pub struct Session {
    pub client: reqwest::Client,
    pub config: SessionConfig,
}

impl Session {
    /// Builds the session client from the given configuration, once per
    /// run; on failure the run cannot proceed.
    pub fn new(config: SessionConfig) -> (r: Result<Session, SessionError>)
        ensures
            (match r {
                Ok(s) => s.config == config,
                Err(_) => true,
            }),
    {
        match build_client(&config) {
            Ok(c) => Ok(Session { client: c, config }),
            Err(e) => Err(e),
        }
    }

    /// The underlying HTTP client, to be handed to the retrieval library.
    pub fn client(&self) -> &reqwest::Client {
        &self.client
    }
}

} // verus!
