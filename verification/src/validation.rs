//! Semantic cross-field validation of a constructed configuration.
//!
//! Runs once, immediately after construction and before the configuration
//! is handed to any consumer. Validation asserts *shape* only: whether the
//! named files exist and hold readable PEM is checked by the consumer that
//! opens them.

use vstd::prelude::*;

use crate::error::ValidationError;
use crate::properties::AuthorizationProperties;
use crate::properties::NotarySigningKeyProperties;
use crate::properties::NotaryServerProperties;
use crate::properties::TLSProperties;

verus! {

/// TLS enabled implies both PEM paths present and non-empty.
pub open spec fn tls_ok(tls: TLSProperties) -> bool {
    tls.enabled ==> {
        &&& tls.private_key_pem_path matches Some(p) && p@.len() > 0
        &&& tls.certificate_pem_path matches Some(c) && c@.len() > 0
    }
}

/// Both signing-key paths are non-empty.
pub open spec fn signing_key_ok(key: NotarySigningKeyProperties) -> bool {
    &&& key.private_key_pem_path@.len() > 0
    &&& key.public_key_pem_path@.len() > 0
}

/// Authorization enabled implies a whitelist path is present.
pub open spec fn authorization_ok(auth: AuthorizationProperties) -> bool {
    auth.enabled ==> auth.whitelist_csv_path is Some
}

impl NotaryServerProperties {
    /// Every semantic cross-field rule holds.
    pub open spec fn is_valid(self) -> bool {
        &&& self.concurrency >= 1
        &&& tls_ok(self.tls)
        &&& signing_key_ok(self.notary_key)
        &&& authorization_ok(self.authorization)
    }

    /// Checks the semantic cross-field rules, in a fixed order.
    ///
    /// Accepts exactly the models for which [`Self::is_valid`] holds. The
    /// rules are checked in a deterministic order — admission ceiling,
    /// TLS, signing key, authorization — and the first failure is
    /// reported, so the error returned for an invalid model is pinned
    /// down completely.
    pub fn validate(&self) -> (r: Result<(), ValidationError>)
        ensures
            r is Ok <==> self.is_valid(),
            r == Err::<(), ValidationError>(ValidationError::InvalidConcurrency)
                <==> self.concurrency == 0,
            r == Err::<(), ValidationError>(ValidationError::IncompleteTLSConfig)
                <==> self.concurrency >= 1 && !tls_ok(self.tls),
            r == Err::<(), ValidationError>(ValidationError::MissingSigningKey)
                <==> self.concurrency >= 1 && tls_ok(self.tls)
                    && !signing_key_ok(self.notary_key),
            r == Err::<(), ValidationError>(ValidationError::IncompleteAuthorizationConfig)
                <==> self.concurrency >= 1 && tls_ok(self.tls)
                    && signing_key_ok(self.notary_key)
                    && !authorization_ok(self.authorization),
    {
        if self.concurrency == 0 {
            return Err(ValidationError::InvalidConcurrency);
        }
        if self.tls.enabled {
            let key_ok = match &self.tls.private_key_pem_path {
                Some(p) => !p.as_str().is_empty(),
                None => false,
            };
            let cert_ok = match &self.tls.certificate_pem_path {
                Some(c) => !c.as_str().is_empty(),
                None => false,
            };
            if !key_ok || !cert_ok {
                return Err(ValidationError::IncompleteTLSConfig);
            }
        }
        if self.notary_key.private_key_pem_path.as_str().is_empty()
            || self.notary_key.public_key_pem_path.as_str().is_empty() {
            return Err(ValidationError::MissingSigningKey);
        }
        if self.authorization.enabled && self.authorization.whitelist_csv_path.is_none() {
            return Err(ValidationError::IncompleteAuthorizationConfig);
        }
        Ok(())
    }
}

} // verus!
