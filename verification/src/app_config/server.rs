use crate::config::server::Host;
use vstd::prelude::*;

verus! {

/// Settings of the HTTP server, with TLS as a plain switch.
#[derive(Debug, Clone)]
pub struct Server {
    /// The address to listen on.
    pub host: Host,
    /// The port to listen on.
    pub port: u16,
    /// Whether the server speaks TLS.
    pub enabled_tls: bool,
    /// The certificate chain, in PEM.
    pub tls_cert_path: String,
    /// The private key, in PEM.
    pub tls_key_path: String,
}

impl Default for Server {
    fn default() -> (server: Server)
        ensures
            server.is_default(),
    {
        Server {
            host: Host::V4([127u8, 0u8, 0u8, 1u8]),
            port: 8001,
            enabled_tls: false,
            tls_cert_path: "cert.pem".to_owned(),
            tls_key_path: "key.pem".to_owned(),
        }
    }
}

impl Server {
    /// The settings that hold where the configuration names none: the
    /// loopback address, port 8001, no TLS.
    pub open spec fn is_default(&self) -> bool {
        &&& self.host == Host::V4([127u8, 0u8, 0u8, 1u8])
        &&& self.port == 8001
        &&& !self.enabled_tls
        &&& self.tls_cert_path@ == "cert.pem"@
        &&& self.tls_key_path@ == "key.pem"@
    }

    /// The address and the port to bind.
    pub fn addr(&self) -> (addr: (Host, u16))
        ensures
            addr == (self.host, self.port),
    {
        (self.host, self.port)
    }
}

} // verus!
