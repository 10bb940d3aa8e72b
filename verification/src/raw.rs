//! The raw configuration document and its loading into the model.
//!
//! A document is a tree of optional fields: whatever the operator wrote is
//! `Some`, whatever was omitted is `None`. Loading fills every omitted
//! field with its documented default — 32 for the admission ceiling, the
//! type's zero value everywhere else — and parses the log-format token;
//! an unknown token is the one way construction can fail.

use vstd::prelude::*;

use crate::error::DeserializationError;
use crate::log_format::LogFormat;
use crate::log_format::is_compact_token;
use crate::log_format::is_json_token;
use crate::properties::AuthorizationProperties;
use crate::properties::LoggingProperties;
use crate::properties::NotarizationProperties;
use crate::properties::NotarySigningKeyProperties;
use crate::properties::NotaryServerProperties;
use crate::properties::ServerProperties;
use crate::properties::TLSProperties;

verus! {

/// Document fields for the network identity of the server.
#[derive(Clone, Debug, PartialEq, Eq)]
pub struct RawServerProperties {
    pub name: Option<String>,
    pub host: Option<String>,
    pub port: Option<u16>,
    pub html_info: Option<String>,
}

/// Document fields for the per-session resource ceilings.
#[derive(Clone, Copy, Debug, PartialEq, Eq, Structural)]
pub struct RawNotarizationProperties {
    pub max_sent_data: Option<usize>,
    pub max_recv_data: Option<usize>,
    pub timeout: Option<u64>,
}

/// Document fields for the transport security toggle.
#[derive(Clone, Debug, PartialEq, Eq)]
pub struct RawTLSProperties {
    pub enabled: Option<bool>,
    pub private_key_pem_path: Option<String>,
    pub certificate_pem_path: Option<String>,
}

/// Document fields for the signing-key locations.
#[derive(Clone, Debug, PartialEq, Eq)]
pub struct RawNotarySigningKeyProperties {
    pub private_key_pem_path: Option<String>,
    pub public_key_pem_path: Option<String>,
}

/// Document fields for the logging configuration. The format arrives as
/// its document token and is parsed while loading.
#[derive(Clone, Debug, PartialEq, Eq)]
pub struct RawLoggingProperties {
    pub level: Option<String>,
    pub filter: Option<String>,
    pub format: Option<String>,
}

/// Document fields for the API-key gate.
#[derive(Clone, Debug, PartialEq, Eq)]
pub struct RawAuthorizationProperties {
    pub enabled: Option<bool>,
    pub whitelist_csv_path: Option<String>,
}

/// A whole configuration document. An omitted section is the section with
/// every field omitted.
#[derive(Clone, Debug, PartialEq, Eq)]
pub struct RawNotaryServerProperties {
    pub server: RawServerProperties,
    pub notarization: RawNotarizationProperties,
    pub tls: RawTLSProperties,
    pub notary_key: RawNotarySigningKeyProperties,
    pub logging: RawLoggingProperties,
    pub authorization: RawAuthorizationProperties,
    pub concurrency: Option<usize>,
}

impl RawServerProperties {
    /// Every field is omitted.
    pub open spec fn is_empty(self) -> bool {
        &&& self.name is None
        &&& self.host is None
        &&& self.port is None
        &&& self.html_info is None
    }
}

impl Default for RawServerProperties {
    fn default() -> (r: Self)
        ensures
            r.is_empty(),
    {
        RawServerProperties { name: None, host: None, port: None, html_info: None }
    }
}

impl RawNotarizationProperties {
    /// Every field is omitted.
    pub open spec fn is_empty(self) -> bool {
        &&& self.max_sent_data is None
        &&& self.max_recv_data is None
        &&& self.timeout is None
    }
}

impl Default for RawNotarizationProperties {
    fn default() -> (r: Self)
        ensures
            r.is_empty(),
    {
        RawNotarizationProperties { max_sent_data: None, max_recv_data: None, timeout: None }
    }
}

impl RawTLSProperties {
    /// Every field is omitted.
    pub open spec fn is_empty(self) -> bool {
        &&& self.enabled is None
        &&& self.private_key_pem_path is None
        &&& self.certificate_pem_path is None
    }
}

impl Default for RawTLSProperties {
    fn default() -> (r: Self)
        ensures
            r.is_empty(),
    {
        RawTLSProperties { enabled: None, private_key_pem_path: None, certificate_pem_path: None }
    }
}

impl RawNotarySigningKeyProperties {
    /// Every field is omitted.
    pub open spec fn is_empty(self) -> bool {
        &&& self.private_key_pem_path is None
        &&& self.public_key_pem_path is None
    }
}

impl Default for RawNotarySigningKeyProperties {
    fn default() -> (r: Self)
        ensures
            r.is_empty(),
    {
        RawNotarySigningKeyProperties { private_key_pem_path: None, public_key_pem_path: None }
    }
}

impl RawLoggingProperties {
    /// Every field is omitted.
    pub open spec fn is_empty(self) -> bool {
        &&& self.level is None
        &&& self.filter is None
        &&& self.format is None
    }
}

impl Default for RawLoggingProperties {
    fn default() -> (r: Self)
        ensures
            r.is_empty(),
    {
        RawLoggingProperties { level: None, filter: None, format: None }
    }
}

impl RawAuthorizationProperties {
    /// Every field is omitted.
    pub open spec fn is_empty(self) -> bool {
        &&& self.enabled is None
        &&& self.whitelist_csv_path is None
    }
}

impl Default for RawAuthorizationProperties {
    fn default() -> (r: Self)
        ensures
            r.is_empty(),
    {
        RawAuthorizationProperties { enabled: None, whitelist_csv_path: None }
    }
}

impl RawNotaryServerProperties {
    /// Every field of every section is omitted: the empty document.
    pub open spec fn is_empty(self) -> bool {
        &&& self.server.is_empty()
        &&& self.notarization.is_empty()
        &&& self.tls.is_empty()
        &&& self.notary_key.is_empty()
        &&& self.logging.is_empty()
        &&& self.authorization.is_empty()
        &&& self.concurrency is None
    }
}

impl Default for RawNotaryServerProperties {
    fn default() -> (r: Self)
        ensures
            r.is_empty(),
    {
        RawNotaryServerProperties {
            server: RawServerProperties::default(),
            notarization: RawNotarizationProperties::default(),
            tls: RawTLSProperties::default(),
            notary_key: RawNotarySigningKeyProperties::default(),
            logging: RawLoggingProperties::default(),
            authorization: RawAuthorizationProperties::default(),
            concurrency: None,
        }
    }
}

/// `s` is the network-identity group loaded from `raw`: given fields are
/// taken over, omitted ones hold their zero value.
pub open spec fn loads_server(raw: RawServerProperties, s: ServerProperties) -> bool {
    &&& match raw.name {
        Some(v) => s.name == v,
        None => s.name@ == Seq::<char>::empty(),
    }
    &&& match raw.host {
        Some(v) => s.host == v,
        None => s.host@ == Seq::<char>::empty(),
    }
    &&& match raw.port {
        Some(v) => s.port == v,
        None => s.port == 0,
    }
    &&& match raw.html_info {
        Some(v) => s.html_info == v,
        None => s.html_info@ == Seq::<char>::empty(),
    }
}

/// `n` is the resource-ceiling group loaded from `raw`.
pub open spec fn loads_notarization(
    raw: RawNotarizationProperties,
    n: NotarizationProperties,
) -> bool {
    &&& match raw.max_sent_data {
        Some(v) => n.max_sent_data == v,
        None => n.max_sent_data == 0,
    }
    &&& match raw.max_recv_data {
        Some(v) => n.max_recv_data == v,
        None => n.max_recv_data == 0,
    }
    &&& match raw.timeout {
        Some(v) => n.timeout == v,
        None => n.timeout == 0,
    }
}

/// `t` is the TLS group loaded from `raw`. The path fields are optional in
/// the model itself, so they are taken over as they stand.
pub open spec fn loads_tls(raw: RawTLSProperties, t: TLSProperties) -> bool {
    &&& match raw.enabled {
        Some(v) => t.enabled == v,
        None => t.enabled == false,
    }
    &&& t.private_key_pem_path == raw.private_key_pem_path
    &&& t.certificate_pem_path == raw.certificate_pem_path
}

/// `k` is the signing-key group loaded from `raw`.
pub open spec fn loads_signing_key(
    raw: RawNotarySigningKeyProperties,
    k: NotarySigningKeyProperties,
) -> bool {
    &&& match raw.private_key_pem_path {
        Some(v) => k.private_key_pem_path == v,
        None => k.private_key_pem_path@ == Seq::<char>::empty(),
    }
    &&& match raw.public_key_pem_path {
        Some(v) => k.public_key_pem_path == v,
        None => k.public_key_pem_path@ == Seq::<char>::empty(),
    }
}

/// The format token of `raw`, if given, is one of the accepted tokens.
pub open spec fn format_acceptable(raw: RawLoggingProperties) -> bool {
    raw.format matches Some(tok) ==> is_compact_token(tok@) || is_json_token(tok@)
}

/// `l` is the logging group loaded from `raw`: an omitted format token
/// means `Compact`, a given one is parsed case-insensitively.
pub open spec fn loads_logging(raw: RawLoggingProperties, l: LoggingProperties) -> bool {
    &&& match raw.level {
        Some(v) => l.level == v,
        None => l.level@ == Seq::<char>::empty(),
    }
    &&& l.filter == raw.filter
    &&& match raw.format {
        Some(tok) => {
            ||| is_compact_token(tok@) && l.format == LogFormat::Compact
            ||| is_json_token(tok@) && l.format == LogFormat::Json
        },
        None => l.format == LogFormat::Compact,
    }
}

/// `a` is the authorization group loaded from `raw`.
pub open spec fn loads_authorization(
    raw: RawAuthorizationProperties,
    a: AuthorizationProperties,
) -> bool {
    &&& match raw.enabled {
        Some(v) => a.enabled == v,
        None => a.enabled == false,
    }
    &&& a.whitelist_csv_path == raw.whitelist_csv_path
}

/// `m` is the model loaded from the document `raw`: every given field is
/// taken over, every omitted field holds its documented default, and the
/// admission ceiling defaults to 32.
pub open spec fn loads(raw: RawNotaryServerProperties, m: NotaryServerProperties) -> bool {
    &&& loads_server(raw.server, m.server)
    &&& loads_notarization(raw.notarization, m.notarization)
    &&& loads_tls(raw.tls, m.tls)
    &&& loads_signing_key(raw.notary_key, m.notary_key)
    &&& loads_logging(raw.logging, m.logging)
    &&& loads_authorization(raw.authorization, m.authorization)
    &&& match raw.concurrency {
        Some(v) => m.concurrency == v,
        None => m.concurrency == 32,
    }
}

/// `raw` is the serialization of the network-identity group `s`.
pub open spec fn serializes_server(s: ServerProperties, raw: RawServerProperties) -> bool {
    &&& raw.name == Some(s.name)
    &&& raw.host == Some(s.host)
    &&& raw.port == Some(s.port)
    &&& raw.html_info == Some(s.html_info)
}

/// `raw` is the serialization of the resource-ceiling group `n`.
pub open spec fn serializes_notarization(
    n: NotarizationProperties,
    raw: RawNotarizationProperties,
) -> bool {
    &&& raw.max_sent_data == Some(n.max_sent_data)
    &&& raw.max_recv_data == Some(n.max_recv_data)
    &&& raw.timeout == Some(n.timeout)
}

/// `raw` is the serialization of the TLS group `t`: an absent model path is
/// an omitted document field.
pub open spec fn serializes_tls(t: TLSProperties, raw: RawTLSProperties) -> bool {
    &&& raw.enabled == Some(t.enabled)
    &&& raw.private_key_pem_path == t.private_key_pem_path
    &&& raw.certificate_pem_path == t.certificate_pem_path
}

/// `raw` is the serialization of the signing-key group `k`.
pub open spec fn serializes_signing_key(
    k: NotarySigningKeyProperties,
    raw: RawNotarySigningKeyProperties,
) -> bool {
    &&& raw.private_key_pem_path == Some(k.private_key_pem_path)
    &&& raw.public_key_pem_path == Some(k.public_key_pem_path)
}

/// `raw` is the serialization of the logging group `l`: the format is
/// written as a casing of its token.
pub open spec fn serializes_logging(l: LoggingProperties, raw: RawLoggingProperties) -> bool {
    &&& raw.level == Some(l.level)
    &&& raw.filter == l.filter
    &&& raw.format matches Some(tok) && (l.format is Compact ==> is_compact_token(tok@)) && (
    l.format is Json ==> is_json_token(tok@))
}

/// `raw` is the serialization of the authorization group `a`.
pub open spec fn serializes_authorization(
    a: AuthorizationProperties,
    raw: RawAuthorizationProperties,
) -> bool {
    &&& raw.enabled == Some(a.enabled)
    &&& raw.whitelist_csv_path == a.whitelist_csv_path
}

/// `raw` is a serialization of the model `m`: every field is written out.
pub open spec fn serializes(m: NotaryServerProperties, raw: RawNotaryServerProperties) -> bool {
    &&& serializes_server(m.server, raw.server)
    &&& serializes_notarization(m.notarization, raw.notarization)
    &&& serializes_tls(m.tls, raw.tls)
    &&& serializes_signing_key(m.notary_key, raw.notary_key)
    &&& serializes_logging(m.logging, raw.logging)
    &&& serializes_authorization(m.authorization, raw.authorization)
    &&& raw.concurrency == Some(m.concurrency)
}

/// Takes the given value, or a fresh empty string for an omitted field.
fn string_or_empty(v: Option<String>) -> (s: String)
    ensures
        match v {
            Some(x) => s == x,
            None => s@ == Seq::<char>::empty(),
        },
{
    match v {
        Some(x) => x,
        None => String::new(),
    }
}

/// Copies an optional path field as it stands.
fn clone_opt_string(v: &Option<String>) -> (r: Option<String>)
    ensures
        r == *v,
{
    match v {
        Some(x) => Some(x.clone()),
        None => None,
    }
}

fn server_from_raw(raw: RawServerProperties) -> (s: ServerProperties)
    ensures
        loads_server(raw, s),
{
    let RawServerProperties { name, host, port, html_info } = raw;
    ServerProperties {
        name: string_or_empty(name),
        host: string_or_empty(host),
        port: match port {
            Some(v) => v,
            None => 0,
        },
        html_info: string_or_empty(html_info),
    }
}

fn notarization_from_raw(raw: RawNotarizationProperties) -> (n: NotarizationProperties)
    ensures
        loads_notarization(raw, n),
{
    NotarizationProperties {
        max_sent_data: match raw.max_sent_data {
            Some(v) => v,
            None => 0,
        },
        max_recv_data: match raw.max_recv_data {
            Some(v) => v,
            None => 0,
        },
        timeout: match raw.timeout {
            Some(v) => v,
            None => 0,
        },
    }
}

fn tls_from_raw(raw: RawTLSProperties) -> (t: TLSProperties)
    ensures
        loads_tls(raw, t),
{
    let RawTLSProperties { enabled, private_key_pem_path, certificate_pem_path } = raw;
    TLSProperties {
        enabled: match enabled {
            Some(v) => v,
            None => false,
        },
        private_key_pem_path,
        certificate_pem_path,
    }
}

fn signing_key_from_raw(raw: RawNotarySigningKeyProperties) -> (k: NotarySigningKeyProperties)
    ensures
        loads_signing_key(raw, k),
{
    let RawNotarySigningKeyProperties { private_key_pem_path, public_key_pem_path } = raw;
    NotarySigningKeyProperties {
        private_key_pem_path: string_or_empty(private_key_pem_path),
        public_key_pem_path: string_or_empty(public_key_pem_path),
    }
}

fn logging_from_raw(raw: RawLoggingProperties) -> (r: Result<
    LoggingProperties,
    DeserializationError,
>)
    ensures
        r is Ok <==> format_acceptable(raw),
        r matches Ok(l) ==> loads_logging(raw, l),
        r matches Err(e) ==> raw.format matches Some(tok) && !is_compact_token(tok@)
            && !is_json_token(tok@) && e.token@ == tok@ && e.field@ == "logging.format"@,
{
    let RawLoggingProperties { level, filter, format } = raw;
    let format = match format {
        None => LogFormat::Compact,
        Some(tok) => match LogFormat::parse(tok.as_str()) {
            Ok(f) => f,
            Err(e) => {
                return Err(e);
            },
        },
    };
    Ok(LoggingProperties { level: string_or_empty(level), filter, format })
}

fn authorization_from_raw(raw: RawAuthorizationProperties) -> (a: AuthorizationProperties)
    ensures
        loads_authorization(raw, a),
{
    let RawAuthorizationProperties { enabled, whitelist_csv_path } = raw;
    AuthorizationProperties {
        enabled: match enabled {
            Some(v) => v,
            None => false,
        },
        whitelist_csv_path,
    }
}

impl NotaryServerProperties {
    /// Constructs the model from a configuration document.
    ///
    /// Every given field is taken over, every omitted field is filled with
    /// its documented default (32 for `concurrency`, the type's zero value
    /// everywhere else). Construction fails exactly when the document
    /// carries a log-format token outside the accepted set, and the error
    /// names that token and its field path.
    pub fn from_raw(raw: RawNotaryServerProperties) -> (r: Result<
        NotaryServerProperties,
        DeserializationError,
    >)
        ensures
            r is Ok <==> format_acceptable(raw.logging),
            r matches Ok(m) ==> loads(raw, m),
            r matches Err(e) ==> raw.logging.format matches Some(tok) && !is_compact_token(tok@)
                && !is_json_token(tok@) && e.token@ == tok@ && e.field@ == "logging.format"@,
    {
        let RawNotaryServerProperties {
            server,
            notarization,
            tls,
            notary_key,
            logging,
            authorization,
            concurrency,
        } = raw;
        let logging = match logging_from_raw(logging) {
            Ok(l) => l,
            Err(e) => {
                return Err(e);
            },
        };
        Ok(
            NotaryServerProperties {
                server: server_from_raw(server),
                notarization: notarization_from_raw(notarization),
                tls: tls_from_raw(tls),
                notary_key: signing_key_from_raw(notary_key),
                logging,
                authorization: authorization_from_raw(authorization),
                concurrency: match concurrency {
                    Some(v) => v,
                    None => 32,
                },
            },
        )
    }

    /// Writes the model out as a document in which every field is given.
    ///
    /// The format is written as its canonical lower-case token.
    pub fn into_raw(&self) -> (raw: RawNotaryServerProperties)
        ensures
            serializes(*self, raw),
    {
        RawNotaryServerProperties {
            server: RawServerProperties {
                name: Some(self.server.name.clone()),
                host: Some(self.server.host.clone()),
                port: Some(self.server.port),
                html_info: Some(self.server.html_info.clone()),
            },
            notarization: RawNotarizationProperties {
                max_sent_data: Some(self.notarization.max_sent_data),
                max_recv_data: Some(self.notarization.max_recv_data),
                timeout: Some(self.notarization.timeout),
            },
            tls: RawTLSProperties {
                enabled: Some(self.tls.enabled),
                private_key_pem_path: clone_opt_string(&self.tls.private_key_pem_path),
                certificate_pem_path: clone_opt_string(&self.tls.certificate_pem_path),
            },
            notary_key: RawNotarySigningKeyProperties {
                private_key_pem_path: Some(self.notary_key.private_key_pem_path.clone()),
                public_key_pem_path: Some(self.notary_key.public_key_pem_path.clone()),
            },
            logging: RawLoggingProperties {
                level: Some(self.logging.level.clone()),
                filter: clone_opt_string(&self.logging.filter),
                format: Some(self.logging.format.token().to_owned()),
            },
            authorization: RawAuthorizationProperties {
                enabled: Some(self.authorization.enabled),
                whitelist_csv_path: clone_opt_string(&self.authorization.whitelist_csv_path),
            },
            concurrency: Some(self.concurrency),
        }
    }
}

/// An absent `concurrency` field loads as the documented default of 32.
pub proof fn lemma_concurrency_defaults_to_32(
    raw: RawNotaryServerProperties,
    m: NotaryServerProperties,
)
    requires
        loads(raw, m),
        raw.concurrency is None,
    ensures
        m.concurrency == 32,
{
}

/// The empty document loads as the fully-default model: every leaf field
/// holds its zero value, the format is `Compact`, and the admission
/// ceiling is 32.
pub proof fn lemma_empty_document_loads_defaults(
    raw: RawNotaryServerProperties,
    m: NotaryServerProperties,
)
    requires
        loads(raw, m),
        raw.is_empty(),
    ensures
        m.is_default(),
{
}

/// A serialization of a model is always loadable: its format token is in
/// the accepted set.
pub proof fn lemma_serialization_acceptable(
    m: NotaryServerProperties,
    raw: RawNotaryServerProperties,
)
    requires
        serializes(m, raw),
    ensures
        format_acceptable(raw.logging),
{
}

/// Round trip: any document that serializes a model loads back as exactly
/// that model, field for field.
pub proof fn lemma_round_trip(
    m: NotaryServerProperties,
    raw: RawNotaryServerProperties,
    m2: NotaryServerProperties,
)
    requires
        serializes(m, raw),
        loads(raw, m2),
    ensures
        m2 == m,
{
    assert(m2.server == m.server);
    assert(m2.notarization == m.notarization);
    assert(m2.tls == m.tls);
    assert(m2.notary_key == m.notary_key);
    assert(m2.logging.format == m.logging.format);
    assert(m2.logging == m.logging);
    assert(m2.authorization == m.authorization);
    assert(m2.concurrency == m.concurrency);
}

} // verus!
