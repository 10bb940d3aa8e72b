use notary_config::error::ValidationError;
use notary_config::log_format::LogFormat;
use notary_config::properties::AuthorizationProperties;
use notary_config::properties::LoggingProperties;
use notary_config::properties::NotarizationProperties;
use notary_config::properties::NotarySigningKeyProperties;
use notary_config::properties::NotaryServerProperties;
use notary_config::properties::ServerProperties;
use notary_config::properties::TLSProperties;
use notary_config::raw::RawNotarySigningKeyProperties;
use notary_config::raw::RawNotaryServerProperties;
use notary_config::raw::RawTLSProperties;

fn valid_model() -> NotaryServerProperties {
    NotaryServerProperties {
        server: ServerProperties {
            name: "test-notary".to_owned(),
            host: "0.0.0.0".to_owned(),
            port: 7047,
            html_info: "<h1>{version} {public_key}</h1>".to_owned(),
        },
        notarization: NotarizationProperties {
            max_sent_data: 4096,
            max_recv_data: 16384,
            timeout: 1800,
        },
        tls: TLSProperties {
            enabled: true,
            private_key_pem_path: Some("/fixture/tls/key.pem".to_owned()),
            certificate_pem_path: Some("/fixture/tls/cert.pem".to_owned()),
        },
        notary_key: NotarySigningKeyProperties {
            private_key_pem_path: "/fixture/notary/key.pem".to_owned(),
            public_key_pem_path: "/fixture/notary/pub.pem".to_owned(),
        },
        logging: LoggingProperties {
            level: "DEBUG".to_owned(),
            filter: Some("notary_server=debug".to_owned()),
            format: LogFormat::Json,
        },
        authorization: AuthorizationProperties {
            enabled: true,
            whitelist_csv_path: Some("/fixture/auth/whitelist.csv".to_owned()),
        },
        concurrency: 8,
    }
}

#[test]
fn concurrency_defaults_to_32_when_omitted() {
    let raw = RawNotaryServerProperties {
        notary_key: RawNotarySigningKeyProperties {
            private_key_pem_path: Some("/k.pem".to_owned()),
            public_key_pem_path: Some("/p.pem".to_owned()),
        },
        concurrency: None,
        ..RawNotaryServerProperties::default()
    };
    let m = NotaryServerProperties::from_raw(raw).unwrap();
    assert_eq!(m.concurrency, 32);
}

#[test]
fn given_concurrency_is_taken_over() {
    let raw = RawNotaryServerProperties {
        concurrency: Some(5),
        ..RawNotaryServerProperties::default()
    };
    let m = NotaryServerProperties::from_raw(raw).unwrap();
    assert_eq!(m.concurrency, 5);
}

#[test]
fn empty_document_loads_zero_defaults() {
    let m = NotaryServerProperties::from_raw(RawNotaryServerProperties::default()).unwrap();
    assert_eq!(m.server.name, "");
    assert_eq!(m.server.host, "");
    assert_eq!(m.server.port, 0);
    assert_eq!(m.server.html_info, "");
    assert_eq!(m.notarization.max_sent_data, 0);
    assert_eq!(m.notarization.max_recv_data, 0);
    assert_eq!(m.notarization.timeout, 0);
    assert!(!m.tls.enabled);
    assert_eq!(m.tls.private_key_pem_path, None);
    assert_eq!(m.tls.certificate_pem_path, None);
    assert_eq!(m.notary_key.private_key_pem_path, "");
    assert_eq!(m.notary_key.public_key_pem_path, "");
    assert_eq!(m.logging.level, "");
    assert_eq!(m.logging.filter, None);
    assert_eq!(m.logging.format, LogFormat::Compact);
    assert!(!m.authorization.enabled);
    assert_eq!(m.authorization.whitelist_csv_path, None);
    assert_eq!(m.concurrency, 32);
}

#[test]
fn empty_document_matches_default_constructor() {
    let loaded = NotaryServerProperties::from_raw(RawNotaryServerProperties::default()).unwrap();
    let built = NotaryServerProperties::default();
    assert_eq!(loaded, built);
}

#[test]
fn round_trip_preserves_a_validated_model() {
    let m = valid_model();
    assert!(m.validate().is_ok());
    let raw = m.into_raw();
    let m2 = NotaryServerProperties::from_raw(raw).unwrap();
    assert_eq!(m2, m);
}

#[test]
fn round_trip_preserves_the_default_model() {
    let m = NotaryServerProperties::default();
    let m2 = NotaryServerProperties::from_raw(m.into_raw()).unwrap();
    assert_eq!(m2, m);
}

#[test]
fn log_format_parse_is_case_insensitive() {
    assert_eq!(LogFormat::parse("compact").unwrap(), LogFormat::Compact);
    assert_eq!(LogFormat::parse("Compact").unwrap(), LogFormat::Compact);
    assert_eq!(LogFormat::parse("COMPACT").unwrap(), LogFormat::Compact);
    assert_eq!(LogFormat::parse("json").unwrap(), LogFormat::Json);
    assert_eq!(LogFormat::parse("JSON").unwrap(), LogFormat::Json);
    assert_eq!(LogFormat::parse("jSoN").unwrap(), LogFormat::Json);
}

#[test]
fn log_format_parse_rejects_unknown_tokens() {
    for token in ["yaml", "", "compac", "compactt", " json", "json ", "js0n", "c0mpact"] {
        let e = LogFormat::parse(token).unwrap_err();
        assert_eq!(e.token, token);
        assert_eq!(e.field, "logging.format");
    }
}

#[test]
fn log_format_token_round_trips() {
    assert_eq!(LogFormat::Compact.token(), "compact");
    assert_eq!(LogFormat::Json.token(), "json");
    assert_eq!(LogFormat::parse(LogFormat::Compact.token()).unwrap(), LogFormat::Compact);
    assert_eq!(LogFormat::parse(LogFormat::Json.token()).unwrap(), LogFormat::Json);
}

#[test]
fn log_format_defaults_to_compact() {
    assert_eq!(LogFormat::default(), LogFormat::Compact);
}

#[test]
fn bad_format_token_fails_construction() {
    let mut raw = RawNotaryServerProperties::default();
    raw.logging.format = Some("pretty".to_owned());
    let e = NotaryServerProperties::from_raw(raw).unwrap_err();
    assert_eq!(e.token, "pretty");
    assert_eq!(e.field, "logging.format");
}

#[test]
fn given_format_token_is_parsed() {
    let mut raw = RawNotaryServerProperties::default();
    raw.logging.format = Some("Json".to_owned());
    let m = NotaryServerProperties::from_raw(raw).unwrap();
    assert_eq!(m.logging.format, LogFormat::Json);
}

#[test]
fn validation_rejects_tls_enabled_without_key_path() {
    let mut m = valid_model();
    m.tls.private_key_pem_path = None;
    assert_eq!(m.validate().unwrap_err(), ValidationError::IncompleteTLSConfig);
}

#[test]
fn validation_rejects_tls_enabled_without_certificate_path() {
    let mut m = valid_model();
    m.tls.certificate_pem_path = None;
    assert_eq!(m.validate().unwrap_err(), ValidationError::IncompleteTLSConfig);
}

#[test]
fn validation_rejects_tls_enabled_with_empty_path() {
    let mut m = valid_model();
    m.tls.private_key_pem_path = Some("".to_owned());
    assert_eq!(m.validate().unwrap_err(), ValidationError::IncompleteTLSConfig);
}

#[test]
fn validation_accepts_tls_enabled_with_both_paths() {
    let m = valid_model();
    assert!(m.tls.enabled);
    assert!(m.validate().is_ok());
}

#[test]
fn validation_accepts_tls_disabled_without_paths() {
    let mut m = valid_model();
    m.tls = TLSProperties {
        enabled: false,
        private_key_pem_path: None,
        certificate_pem_path: None,
    };
    assert!(m.validate().is_ok());
}

#[test]
fn validation_rejects_zero_concurrency() {
    let mut m = valid_model();
    m.concurrency = 0;
    assert_eq!(m.validate().unwrap_err(), ValidationError::InvalidConcurrency);
}

#[test]
fn validation_accepts_positive_concurrency() {
    let mut m = valid_model();
    m.concurrency = 1;
    assert!(m.validate().is_ok());
    m.concurrency = 100_000;
    assert!(m.validate().is_ok());
}

#[test]
fn validation_rejects_empty_signing_key_paths() {
    let mut m = valid_model();
    m.notary_key.private_key_pem_path = "".to_owned();
    assert_eq!(m.validate().unwrap_err(), ValidationError::MissingSigningKey);
    let mut m = valid_model();
    m.notary_key.public_key_pem_path = "".to_owned();
    assert_eq!(m.validate().unwrap_err(), ValidationError::MissingSigningKey);
}

#[test]
fn validation_rejects_authorization_without_whitelist() {
    let mut m = valid_model();
    m.authorization.whitelist_csv_path = None;
    assert_eq!(m.validate().unwrap_err(), ValidationError::IncompleteAuthorizationConfig);
}

#[test]
fn validation_accepts_authorization_disabled_without_whitelist() {
    let mut m = valid_model();
    m.authorization = AuthorizationProperties { enabled: false, whitelist_csv_path: None };
    assert!(m.validate().is_ok());
}

#[test]
fn zero_concurrency_is_reported_before_incomplete_tls() {
    let raw = RawNotaryServerProperties {
        tls: RawTLSProperties {
            enabled: Some(true),
            private_key_pem_path: None,
            certificate_pem_path: None,
        },
        concurrency: Some(0),
        ..RawNotaryServerProperties::default()
    };
    let m = NotaryServerProperties::from_raw(raw).unwrap();
    assert_eq!(m.concurrency, 0);
    assert!(m.tls.enabled);
    assert_eq!(m.validate().unwrap_err(), ValidationError::InvalidConcurrency);
}

#[test]
fn signing_key_only_document_loads_and_validates() {
    let raw = RawNotaryServerProperties {
        notary_key: RawNotarySigningKeyProperties {
            private_key_pem_path: Some("/k.pem".to_owned()),
            public_key_pem_path: Some("/p.pem".to_owned()),
        },
        ..RawNotaryServerProperties::default()
    };
    let m = NotaryServerProperties::from_raw(raw).unwrap();
    assert_eq!(m.concurrency, 32);
    assert!(!m.tls.enabled);
    assert!(!m.authorization.enabled);
    assert_eq!(m.logging.format, LogFormat::Compact);
    assert_eq!(m.notary_key.private_key_pem_path, "/k.pem");
    assert_eq!(m.notary_key.public_key_pem_path, "/p.pem");
    assert!(m.validate().is_ok());
}

#[test]
fn validation_error_names_its_field_group() {
    assert_eq!(ValidationError::InvalidConcurrency.field_path(), "concurrency");
    assert_eq!(ValidationError::IncompleteTLSConfig.field_path(), "tls");
    assert_eq!(ValidationError::MissingSigningKey.field_path(), "notary_key");
    assert_eq!(ValidationError::IncompleteAuthorizationConfig.field_path(), "authorization");
}

#[test]
fn fully_given_document_overrides_every_default() {
    let m = valid_model();
    let raw = m.into_raw();
    assert_eq!(raw.server.name.as_deref(), Some("test-notary"));
    assert_eq!(raw.concurrency, Some(8));
    assert_eq!(raw.logging.format.as_deref(), Some("json"));
    let m2 = NotaryServerProperties::from_raw(raw).unwrap();
    assert_eq!(m2.server.port, 7047);
    assert_eq!(m2.notarization.max_recv_data, 16384);
    assert_eq!(m2.logging.filter.as_deref(), Some("notary_server=debug"));
    assert_eq!(m2.authorization.whitelist_csv_path.as_deref(), Some("/fixture/auth/whitelist.csv"));
}
