//! Startup configuration of the gateway.

use vstd::prelude::*;

verus! {

/// The port the gateway listens on when none is configured.
pub const DEFAULT_PORT: u16 = 3030;

/// The listening port used when the operator names none.
pub fn default_port() -> (port: u16)
    ensures
        port == DEFAULT_PORT,
        port == 3030,
{
    DEFAULT_PORT
}

/// What the gateway is started with. It is set once and only read afterwards:
/// the fields are private and nothing changes them.
#[derive(Clone, Debug, PartialEq, Eq)]
pub struct GatewayConfig {
    base_url: String,
    secret: String,
    port: u16,
}

/// The mathematical content of a [`GatewayConfig`].
pub struct ConfigView {
    pub base_url: Seq<char>,
    pub secret: Seq<char>,
    pub port: u16,
}

impl View for GatewayConfig {
    type V = ConfigView;

    closed spec fn view(&self) -> ConfigView {
        ConfigView { base_url: self.base_url@, secret: self.secret@, port: self.port }
    }
}

impl GatewayConfig {
    /// A configuration with the given provider base URL, shared secret and
    /// listening port. The base URL is taken as it is; whether it parses is
    /// found out when a request is built from it.
    pub fn new(base_url: String, secret: String, port: u16) -> (config: GatewayConfig)
        ensures
            config@ == (ConfigView { base_url: base_url@, secret: secret@, port }),
    {
        GatewayConfig { base_url, secret, port }
    }

    /// The provider's base URL, as configured.
    pub fn base_url(&self) -> (text: &str)
        ensures
            text@ == self@.base_url,
    {
        self.base_url.as_str()
    }

    /// The secret shared with the provider.
    pub fn secret(&self) -> (text: &str)
        ensures
            text@ == self@.secret,
    {
        self.secret.as_str()
    }

    /// The port to listen on.
    pub fn port(&self) -> (port: u16)
        ensures
            port == self@.port,
    {
        self.port
    }
}

} // verus!
