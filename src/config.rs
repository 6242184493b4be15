use vstd::prelude::*;
use std::collections::HashMap;

verus! {

/// Settings of one UDP tracker server.
#[derive(Clone, Debug, PartialEq)]
pub struct UdpTrackerConfig {
    pub enabled: bool,
    pub bind_address: String,
}

/// Settings of one HTTP tracker server. An absent certificate or key path is
/// `None`.
#[derive(Clone, Debug, PartialEq)]
pub struct HttpTrackerConfig {
    pub enabled: bool,
    pub bind_address: String,
    pub ssl_enabled: bool,
    pub ssl_cert_path: Option<String>,
    pub ssl_key_path: Option<String>,
}

/// Settings of the HTTP management API, with its access tokens by name.
#[derive(Clone, Debug, PartialEq)]
pub struct HttpApiConfig {
    pub enabled: bool,
    pub bind_address: String,
    pub access_tokens: HashMap<String, String>,
}

} // verus!
