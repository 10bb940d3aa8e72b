//! The configuration model: the root aggregate and its leaf property groups.
//!
//! Every entity is a plain value object: no identity beyond its field
//! values, no mutation after construction. Each leaf group is consumed by
//! one runtime subsystem and references none of the others.

use vstd::prelude::*;

use crate::log_format::LogFormat;

verus! {

/// Network identity of the server.
#[derive(Clone, Debug, PartialEq, Eq)]
pub struct ServerProperties {
    /// Display name of the server.
    pub name: String,
    /// Host the server binds to.
    pub host: String,
    /// Port the server binds to; every `u16` value is a valid port.
    pub port: u16,
    /// Static html returned from the root endpoint. May contain the
    /// placeholders `{version}` and `{public_key}`, which the server (not
    /// this model) substitutes later.
    pub html_info: String,
}

/// Per-session resource ceilings for notarization.
#[derive(Clone, Copy, Debug, PartialEq, Eq, Structural)]
pub struct NotarizationProperties {
    /// Maximum number of bytes a session may send.
    pub max_sent_data: usize,
    /// Maximum number of bytes a session may receive.
    pub max_recv_data: usize,
    /// Seconds before a notarization session times out. A value of zero is
    /// handed through unchanged: whether it means "no timeout" is a policy
    /// decision of the consuming subsystem, not of this model.
    pub timeout: u64,
}

/// Transport security toggle between prover and notary.
#[derive(Clone, Debug, PartialEq, Eq)]
pub struct TLSProperties {
    /// Whether the listener performs a TLS handshake.
    pub enabled: bool,
    /// Path of the private key, in PEM format.
    pub private_key_pem_path: Option<String>,
    /// Path of the certificate, in PEM format.
    pub certificate_pem_path: Option<String>,
}

/// Location of the notarization-attestation signing material.
#[derive(Clone, Debug, PartialEq, Eq)]
pub struct NotarySigningKeyProperties {
    /// Path of the signing private key, in PEM format.
    pub private_key_pem_path: String,
    /// Path of the corresponding public key, in PEM format.
    pub public_key_pem_path: String,
}

/// Observability configuration.
#[derive(Clone, Debug, PartialEq, Eq)]
pub struct LoggingProperties {
    /// Verbosity level of the default filtering logic. An opaque filter
    /// expression passed through verbatim to the logging subsystem.
    pub level: String,
    /// Full filtering override; when present it takes precedence over
    /// `level` entirely. Opaque to this model.
    pub filter: Option<String>,
    /// Output encoding of the log subscriber.
    pub format: LogFormat,
}

/// API-key gate toggle.
#[derive(Clone, Debug, PartialEq, Eq)]
pub struct AuthorizationProperties {
    /// Whether the authorization middleware is active.
    pub enabled: bool,
    /// Path of the whitelist API-key csv file.
    pub whitelist_csv_path: Option<String>,
}

/// Root configuration: everything the server needs to boot.
#[derive(Clone, Debug, PartialEq, Eq)]
pub struct NotaryServerProperties {
    /// Name and address of the notary server.
    pub server: ServerProperties,
    /// Per-session ceilings for notarization.
    pub notarization: NotarizationProperties,
    /// TLS between prover and notary.
    pub tls: TLSProperties,
    /// Location of the attestation signing keys.
    pub notary_key: NotarySigningKeyProperties,
    /// Logging configuration.
    pub logging: LoggingProperties,
    /// Authorization configuration.
    pub authorization: AuthorizationProperties,
    /// Maximum number of concurrent notarization sessions.
    pub concurrency: usize,
}

impl ServerProperties {
    /// Every field holds its type's zero value.
    pub open spec fn is_default(self) -> bool {
        &&& self.name@ == Seq::<char>::empty()
        &&& self.host@ == Seq::<char>::empty()
        &&& self.port == 0
        &&& self.html_info@ == Seq::<char>::empty()
    }
}

impl Default for ServerProperties {
    fn default() -> (r: Self)
        ensures
            r.is_default(),
    {
        ServerProperties {
            name: String::new(),
            host: String::new(),
            port: 0,
            html_info: String::new(),
        }
    }
}

impl NotarizationProperties {
    /// Every field holds its type's zero value.
    pub open spec fn is_default(self) -> bool {
        &&& self.max_sent_data == 0
        &&& self.max_recv_data == 0
        &&& self.timeout == 0
    }
}

impl Default for NotarizationProperties {
    fn default() -> (r: Self)
        ensures
            r.is_default(),
    {
        NotarizationProperties { max_sent_data: 0, max_recv_data: 0, timeout: 0 }
    }
}

impl TLSProperties {
    /// Every field holds its type's zero value.
    pub open spec fn is_default(self) -> bool {
        &&& !self.enabled
        &&& self.private_key_pem_path is None
        &&& self.certificate_pem_path is None
    }
}

impl Default for TLSProperties {
    fn default() -> (r: Self)
        ensures
            r.is_default(),
    {
        TLSProperties { enabled: false, private_key_pem_path: None, certificate_pem_path: None }
    }
}

impl NotarySigningKeyProperties {
    /// Every field holds its type's zero value.
    pub open spec fn is_default(self) -> bool {
        &&& self.private_key_pem_path@ == Seq::<char>::empty()
        &&& self.public_key_pem_path@ == Seq::<char>::empty()
    }
}

impl Default for NotarySigningKeyProperties {
    fn default() -> (r: Self)
        ensures
            r.is_default(),
    {
        NotarySigningKeyProperties {
            private_key_pem_path: String::new(),
            public_key_pem_path: String::new(),
        }
    }
}

impl LoggingProperties {
    /// Every field holds its type's zero value; the format is `Compact`.
    pub open spec fn is_default(self) -> bool {
        &&& self.level@ == Seq::<char>::empty()
        &&& self.filter is None
        &&& self.format == LogFormat::Compact
    }
}

impl Default for LoggingProperties {
    fn default() -> (r: Self)
        ensures
            r.is_default(),
    {
        LoggingProperties { level: String::new(), filter: None, format: LogFormat::Compact }
    }
}

impl AuthorizationProperties {
    /// Every field holds its type's zero value.
    pub open spec fn is_default(self) -> bool {
        &&& !self.enabled
        &&& self.whitelist_csv_path is None
    }
}

impl Default for AuthorizationProperties {
    fn default() -> (r: Self)
        ensures
            r.is_default(),
    {
        AuthorizationProperties { enabled: false, whitelist_csv_path: None }
    }
}

impl NotaryServerProperties {
    /// Every leaf group holds its zero-value default and the admission
    /// ceiling holds its documented default of 32.
    ///
    /// Only `concurrency` has an explicit default override; every other
    /// field defaults to its type's zero value, a deliberate
    /// "unsafe by omission" policy the operator must override for
    /// production use.
    pub open spec fn is_default(self) -> bool {
        &&& self.server.is_default()
        &&& self.notarization.is_default()
        &&& self.tls.is_default()
        &&& self.notary_key.is_default()
        &&& self.logging.is_default()
        &&& self.authorization.is_default()
        &&& self.concurrency == 32
    }
}

impl Default for NotaryServerProperties {
    fn default() -> (r: Self)
        ensures
            r.is_default(),
    {
        NotaryServerProperties {
            server: ServerProperties::default(),
            notarization: NotarizationProperties::default(),
            tls: TLSProperties::default(),
            notary_key: NotarySigningKeyProperties::default(),
            logging: LoggingProperties::default(),
            authorization: AuthorizationProperties::default(),
            concurrency: 32,
        }
    }
}

} // verus!
