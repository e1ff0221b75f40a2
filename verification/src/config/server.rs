use crate::decimal::{decimal, render_i64};
use crate::text::{join, same_text};
use vstd::prelude::*;

verus! {

/// Whether the server speaks TLS, and through which library.
#[derive(Debug, Clone)]
pub enum EnabledTls {
    /// Plain HTTP.
    Disabled,
    /// TLS through OpenSSL.
    Enabled,
    /// TLS through the library that the text names.
    Mode(String),
}

/// What a configuration file may hold under `enabled_tls`.
#[derive(Debug, Clone)]
pub enum TlsSetting {
    /// `true` or `false`.
    Flag(bool),
    /// A text.
    Text(String),
    /// A value of any other type.
    Other,
}

/// The address a server listens on.
#[derive(Debug, Clone, Copy, PartialEq, Eq)]
pub enum Host {
    /// The four bytes of an IPv4 address.
    V4([u8; 4]),
    /// The eight groups of an IPv6 address.
    V6([u16; 8]),
}

/// Settings of the HTTP server.
#[derive(Debug, Clone)]
pub struct Server {
    /// The address to listen on.
    pub host: Host,
    /// The port to listen on.
    pub port: u16,
    /// Whether TLS is on, and through which library.
    pub enabled_tls: EnabledTls,
    /// The certificate chain, in PEM.
    pub tls_cert_path: String,
    /// The private key, in PEM.
    pub tls_key_path: String,
}

/// The name of the TLS library behind a setting: `none`, `openssl`, or the
/// mode's own text.
pub open spec fn method_name(tls: EnabledTls) -> Seq<char> {
    match tls {
        EnabledTls::Disabled => "none"@,
        EnabledTls::Enabled => "openssl"@,
        EnabledTls::Mode(mode) => mode@,
    }
}

/// The setting that a configuration value stands for. The texts `true` and
/// `false` count as the flags; any other text names a mode; a value that is
/// neither flag nor text switches TLS off.
pub open spec fn setting_meaning(setting: TlsSetting) -> (EnabledTlsKind, Seq<char>) {
    match setting {
        TlsSetting::Flag(true) => (EnabledTlsKind::Enabled, Seq::empty()),
        TlsSetting::Flag(false) => (EnabledTlsKind::Disabled, Seq::empty()),
        TlsSetting::Text(text) => if text@ == "true"@ {
            (EnabledTlsKind::Enabled, Seq::empty())
        } else if text@ == "false"@ {
            (EnabledTlsKind::Disabled, Seq::empty())
        } else {
            (EnabledTlsKind::Mode, text@)
        },
        TlsSetting::Other => (EnabledTlsKind::Disabled, Seq::empty()),
    }
}

/// The variants of [`EnabledTls`], without the mode's text.
#[derive(Debug, Clone, Copy, PartialEq, Eq, Structural)]
pub enum EnabledTlsKind {
    Disabled,
    Enabled,
    Mode,
}

impl View for EnabledTls {
    type V = (EnabledTlsKind, Seq<char>);

    /// A setting is its variant and, for a mode, the mode's text.
    open spec fn view(&self) -> (EnabledTlsKind, Seq<char>) {
        match self {
            EnabledTls::Disabled => (EnabledTlsKind::Disabled, Seq::empty()),
            EnabledTls::Enabled => (EnabledTlsKind::Enabled, Seq::empty()),
            EnabledTls::Mode(mode) => (EnabledTlsKind::Mode, mode@),
        }
    }
}

impl Default for EnabledTls {
    fn default() -> (tls: EnabledTls)
        ensures
            tls is Disabled,
    {
        EnabledTls::Disabled
    }
}

impl EnabledTls {
    /// Whether TLS is on.
    pub fn use_tls(&self) -> (on: bool)
        ensures
            on == !(self is Disabled),
    {
        match self {
            EnabledTls::Disabled => false,
            _ => true,
        }
    }

    /// The name of the TLS library in use: `none`, `openssl`, or the mode's own text.
    pub fn method(&self) -> (name: &str)
        ensures
            name@ == method_name(*self),
    {
        match self {
            EnabledTls::Disabled => "none",
            EnabledTls::Enabled => "openssl",
            EnabledTls::Mode(mode) => mode.as_str(),
        }
    }

    /// Reads the setting out of a configuration value.
    pub fn from_setting(setting: TlsSetting) -> (tls: EnabledTls)
        ensures
            tls@ == setting_meaning(setting),
    {
        match setting {
            TlsSetting::Flag(true) => EnabledTls::Enabled,
            TlsSetting::Flag(false) => EnabledTls::Disabled,
            TlsSetting::Text(text) => {
                if same_text(text.as_str(), "true") {
                    EnabledTls::Enabled
                } else if same_text(text.as_str(), "false") {
                    EnabledTls::Disabled
                } else {
                    EnabledTls::Mode(text)
                }
            },
            TlsSetting::Other => EnabledTls::Disabled,
        }
    }
}

impl Default for Server {
    fn default() -> (server: Server)
        ensures
            server.is_default(),
    {
        Server {
            host: Host::V4([0u8, 0u8, 0u8, 0u8]),
            port: 8001,
            enabled_tls: EnabledTls::Disabled,
            tls_cert_path: "cert.pem".to_owned(),
            tls_key_path: "key.pem".to_owned(),
        }
    }
}

/// The addresses announced at start-up, before the port is added. With TLS
/// only the network address is announced. Without it the two local names
/// come first, and the network address follows unless it is the loopback
/// address itself.
pub open spec fn startup_tips(use_tls: bool, ip: Seq<char>) -> Seq<Seq<char>> {
    if use_tls {
        seq!["➜ Network: https://"@ + ip]
    } else if ip == "127.0.0.1"@ {
        seq!["➜ Local:   http://localhost"@, "➜ Local:   http://127.0.0.1"@]
    } else {
        seq![
            "➜ Local:   http://localhost"@,
            "➜ Local:   http://127.0.0.1"@,
            "➜ Network: http://"@ + ip,
        ]
    }
}

/// The lines announced at start-up: each address, a colon, and the port.
pub open spec fn startup_lines(use_tls: bool, ip: Seq<char>, port: int) -> Seq<Seq<char>> {
    startup_tips(use_tls, ip).map_values(|tip: Seq<char>| tip + ":"@ + decimal(port))
}

impl Server {
    /// The settings that hold where the configuration names none: every
    /// address of the machine, port 8001, no TLS.
    pub open spec fn is_default(&self) -> bool {
        &&& self.host == Host::V4([0u8, 0u8, 0u8, 0u8])
        &&& self.port == 8001
        &&& self.enabled_tls is Disabled
        &&& self.tls_cert_path@ == "cert.pem"@
        &&& self.tls_key_path@ == "key.pem"@
    }

    /// The address and the port to bind.
    pub fn addr(&self) -> (addr: (Host, u16))
        ensures
            addr == (self.host, self.port),
    {
        (self.host, self.port)
    }

    /// The lines that announce where the server can be reached, given the
    /// machine's address in the local network.
    pub fn startup_address_lines(&self, ip: &str) -> (lines: Vec<String>)
        ensures
            lines.deep_view() == startup_lines(!(self.enabled_tls is Disabled), ip@, self.port as int),
    {
        let use_tls = self.enabled_tls.use_tls();
        let mut tips: Vec<String> = Vec::new();
        if use_tls {
            tips.push(join("➜ Network: https://", ip));
        } else {
            tips.push("➜ Local:   http://localhost".to_owned());
            tips.push("➜ Local:   http://127.0.0.1".to_owned());
            if !same_text(ip, "127.0.0.1") {
                tips.push(join("➜ Network: http://", ip));
            }
        }
        assert(tips.deep_view() =~= startup_tips(use_tls, ip@));
        let port = render_i64(self.port as i64);
        let ghost expected = startup_lines(use_tls, ip@, self.port as int);
        let mut lines: Vec<String> = Vec::new();
        let mut i: usize = 0;
        while i < tips.len()
            invariant
                i <= tips.len(),
                tips.deep_view() == startup_tips(use_tls, ip@),
                expected == startup_lines(use_tls, ip@, self.port as int),
                port@ == decimal(self.port as int),
                lines.len() == i,
                forall|k: int| 0 <= k < i ==> (#[trigger] lines[k])@ == expected[k],
            decreases tips.len() - i,
        {
            let mut line = tips[i].clone();
            line.append(":");
            line.append(port.as_str());
            assert(tips.deep_view()[i as int] == tips[i as int]@);
            lines.push(line);
            i += 1;
        }
        assert(lines.deep_view() =~= expected);
        lines
    }
}

} // verus!
