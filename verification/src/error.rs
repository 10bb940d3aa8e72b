//! Error types raised while loading or validating a configuration.

use vstd::prelude::*;

verus! {

/// A document field held a value outside its closed set of accepted tokens.
///
/// Construction of the model fails with this error; it carries the offending
/// token and the path of the field it was found under, for operator
/// diagnosis.
#[derive(Clone, Debug, PartialEq, Eq)]
pub struct DeserializationError {
    /// Path of the document field whose value was rejected.
    pub field: String,
    /// The token that was rejected.
    pub token: String,
}

/// A semantic cross-field rule failed after construction.
///
/// Every variant is fatal at startup: the process must not start with a
/// configuration that carries one of these.
#[derive(Clone, Copy, Debug, PartialEq, Eq, Structural)]
pub enum ValidationError {
    /// `concurrency` is zero; the admission ceiling must be at least one.
    InvalidConcurrency,
    /// TLS is enabled but a private-key or certificate path is absent or
    /// empty.
    IncompleteTLSConfig,
    /// A notarization signing-key path is empty.
    MissingSigningKey,
    /// Authorization is enabled but no whitelist path is given.
    IncompleteAuthorizationConfig,
}

impl ValidationError {
    /// Path of the configuration field group the failed rule is about.
    pub fn field_path(&self) -> (r: String)
        ensures
            *self is InvalidConcurrency ==> r@ == "concurrency"@,
            *self is IncompleteTLSConfig ==> r@ == "tls"@,
            *self is MissingSigningKey ==> r@ == "notary_key"@,
            *self is IncompleteAuthorizationConfig ==> r@ == "authorization"@,
    {
        match self {
            ValidationError::InvalidConcurrency => "concurrency".to_owned(),
            ValidationError::IncompleteTLSConfig => "tls".to_owned(),
            ValidationError::MissingSigningKey => "notary_key".to_owned(),
            ValidationError::IncompleteAuthorizationConfig => "authorization".to_owned(),
        }
    }
}

} // verus!
