//! Core logic of a desktop companion application: the two-step device
//! pairing handshake, the credential-store adapter that keeps the device
//! token in the platform secret service, and the flat string-to-string
//! settings file.

pub mod errors;
pub mod json;
pub mod settings;
pub mod pairing;
pub mod store;
