//! Closed error enums, one per component, so that callers can branch on the
//! kind of a failure rather than on message text.

use vstd::prelude::*;

verus! {

/// Failures of the credential store adapter.
#[derive(Clone, Copy, Debug, PartialEq, Eq, Structural)]
pub enum StoreError {
    /// No value has ever been stored under the fixed key, or it was cleared.
    NotFound,
    /// The platform secret service could not be reached or opened.
    Unavailable,
    /// The platform refused the operation (permission, policy, bad data).
    Rejected,
}

/// The response field whose absence or wrong type makes a pairing reply
/// malformed.
#[derive(Clone, Copy, Debug, PartialEq, Eq, Structural)]
pub enum PairField {
    PairId,
    DeviceToken,
}

/// Failures of one pairing attempt.
#[derive(Clone, Copy, Debug, PartialEq, Eq, Structural)]
pub enum PairError {
    /// Transport or connection failure on one of the two HTTP calls.
    Network,
    /// A well-formed HTTP reply whose JSON lacks the required string field.
    Protocol(PairField),
    /// The pairing succeeded server-side but the token could not be saved.
    Storage(StoreError),
}

/// Failures of the settings store.
#[derive(Clone, Copy, Debug, PartialEq, Eq, Structural)]
pub enum SettingsError {
    /// The requested key is absent, or its value is not a string.
    NotFound,
    /// The settings content is not a JSON object.
    Malformed,
}

impl StoreError {
    /// A human-readable description, for the UI layer.
    pub fn message(&self) -> (r: String)
        ensures
            r@ == match *self {
                StoreError::NotFound => "no device token is stored"@,
                StoreError::Unavailable => "the credential store is unavailable"@,
                StoreError::Rejected => "the credential store rejected the operation"@,
            },
    {
        match *self {
            StoreError::NotFound => String::from_str("no device token is stored"),
            StoreError::Unavailable => String::from_str("the credential store is unavailable"),
            StoreError::Rejected => String::from_str("the credential store rejected the operation"),
        }
    }
}

impl PairError {
    /// A human-readable description, for the UI layer; it distinguishes
    /// "could not reach the server" from "protocol mismatch" from "could not
    /// save the token locally".
    pub fn message(&self) -> (r: String)
        ensures
            r@ == match *self {
                PairError::Network => "network error"@,
                PairError::Protocol(PairField::PairId) => "invalid pair_id"@,
                PairError::Protocol(PairField::DeviceToken) => "invalid device_token"@,
                PairError::Storage(e) => "could not save token: "@ + match e {
                    StoreError::NotFound => "no device token is stored"@,
                    StoreError::Unavailable => "the credential store is unavailable"@,
                    StoreError::Rejected => "the credential store rejected the operation"@,
                },
            },
    {
        match *self {
            PairError::Network => String::from_str("network error"),
            PairError::Protocol(PairField::PairId) => String::from_str("invalid pair_id"),
            PairError::Protocol(PairField::DeviceToken) => String::from_str("invalid device_token"),
            PairError::Storage(e) => {
                let inner = e.message();
                String::from_str("could not save token: ").concat(inner.as_str())
            },
        }
    }
}

impl SettingsError {
    /// A human-readable description, for the UI layer.
    pub fn message(&self) -> (r: String)
        ensures
            r@ == match *self {
                SettingsError::NotFound => "setting not found"@,
                SettingsError::Malformed => "malformed settings content"@,
            },
    {
        match *self {
            SettingsError::NotFound => String::from_str("setting not found"),
            SettingsError::Malformed => String::from_str("malformed settings content"),
        }
    }
}

} // verus!
