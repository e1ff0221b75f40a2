use vstd::prelude::*;

verus! {

/// Settings of the TLS layer.
#[derive(Debug, Clone)]
pub struct Tls {
    /// Which TLS library serves: `default` for none, `rustls-0_23` or `openssl`.
    pub enabled: String,
    /// The certificate chain, in PEM.
    pub cert_path: String,
    /// The private key, in PEM.
    pub key_path: String,
}

impl Tls {
    /// The settings that hold where the configuration names none.
    pub open spec fn is_default(&self) -> bool {
        &&& self.enabled@ == "default"@
        &&& self.cert_path@ == "cert.pem"@
        &&& self.key_path@ == "key.pem"@
    }
}

impl Default for Tls {
    fn default() -> (tls: Tls)
        ensures
            tls.is_default(),
    {
        Tls {
            enabled: "default".to_owned(),
            cert_path: "cert.pem".to_owned(),
            key_path: "key.pem".to_owned(),
        }
    }
}

/// Where the certificate and the key are read from: the paths that the
/// environment names, and `./cert.pem` and `./key.pem` where it names none.
pub fn paths_from_env(cert: Option<String>, key: Option<String>) -> (paths: (String, String))
    ensures
        paths.0@ == match cert {
            Some(path) => path@,
            None => "./cert.pem"@,
        },
        paths.1@ == match key {
            Some(path) => path@,
            None => "./key.pem"@,
        },
{
    let cert_path = match cert {
        Some(path) => path,
        None => "./cert.pem".to_owned(),
    };
    let key_path = match key {
        Some(path) => path,
        None => "./key.pem".to_owned(),
    };
    (cert_path, key_path)
}

} // verus!
