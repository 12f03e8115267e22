//! The credential store adapter: durable, OS-secured storage of exactly one
//! secret, addressed by a fixed `(service, account)` pair. The platform
//! secret service is reached through keyring behind the trusted items below;
//! what it returns depends on the machine's store, so the contracts here
//! state only how the adapter maps keyring's outcomes, and the store's
//! behaviour itself is exercised by tests against keyring's mock store.

use vstd::prelude::*;

use crate::errors::StoreError;

verus! {

/// The fixed service identifier under which the device token is stored.
pub const SERVICE_NAME: &'static str = "Chottu-Desktop";

/// The fixed account key under which the device token is stored.
pub const TOKEN_KEY: &'static str = "device_token";

#[verifier::external_type_specification]
#[verifier::external_body]
pub struct ExEntry(keyring::Entry);

#[verifier::external_type_specification]
#[verifier::external_body]
pub struct ExKeyringError(keyring::Error);

/// Relies on keyring::Entry::new: it builds an entry addressing the
/// credential of the given service and user in the default credential store,
/// and errs when the store refuses the names or cannot be reached.
#[verifier::external_body]
fn entry_new(service: &str, user: &str) -> (r: Result<keyring::Entry, keyring::Error>)
{
    keyring::Entry::new(service, user)
}

/// Relies on keyring::Entry::set_password: on success the entry's credential
/// holds the given password, replacing any previous one.
#[verifier::external_body]
fn entry_set_password(entry: &keyring::Entry, password: &str) -> (r: Result<(), keyring::Error>)
{
    entry.set_password(password)
}

/// Relies on keyring::Entry::get_password: it returns the password the
/// entry's credential holds, and errs with Error::NoEntry when none was ever
/// set or it was deleted.
#[verifier::external_body]
fn entry_get_password(entry: &keyring::Entry) -> (r: Result<String, keyring::Error>)
{
    entry.get_password()
}

/// Relies on the meaning keyring documents for each variant of its Error:
/// NoEntry means no credential was ever set; NoStorageAccess and
/// PlatformFailure mean the store could not be reached or used; the rest
/// mean the store refused the given operation or data.
#[verifier::external_body]
fn store_error_of(e: keyring::Error) -> (r: StoreError)
{
    match e {
        keyring::Error::NoEntry => StoreError::NotFound,
        keyring::Error::NoStorageAccess(_) => StoreError::Unavailable,
        keyring::Error::PlatformFailure(_) => StoreError::Unavailable,
        keyring::Error::BadEncoding(_) => StoreError::Rejected,
        keyring::Error::TooLong(_, _) => StoreError::Rejected,
        keyring::Error::Invalid(_, _) => StoreError::Rejected,
        keyring::Error::Ambiguous(_) => StoreError::Rejected,
        _ => StoreError::Rejected,
    }
}

/// One secret in the platform credential store, addressed by the
/// `(service, account)` pair given at construction. Keeping the pair a
/// constructor argument lets tests run against keyring's mock store.
pub struct TokenStore {
    entry: keyring::Entry,
}

impl TokenStore {
    /// Opens the store for the credential of the given service and account.
    /// Fails with `Unavailable` or `Rejected` when the platform store cannot
    /// address such a credential.
    pub fn open(service: &str, account: &str) -> (r: Result<TokenStore, StoreError>)
        ensures
            r matches Err(e) ==> e != StoreError::NotFound,
    {
        match entry_new(service, account) {
            Ok(entry) => Ok(TokenStore { entry }),
            Err(e) => {
                let kind = store_error_of(e);
                // NotFound is reserved for a load that found nothing stored;
                // a failure to address the credential is a refusal.
                match kind {
                    StoreError::NotFound => Err(StoreError::Rejected),
                    StoreError::Unavailable => Err(StoreError::Unavailable),
                    StoreError::Rejected => Err(StoreError::Rejected),
                }
            },
        }
    }

    /// Overwrites any existing stored value with `token`. What comes back
    /// depends on the platform store; the token is persisted exactly when
    /// the result is `Ok`.
    pub fn save_token(&self, token: &str) -> (r: Result<(), StoreError>)
        ensures
            r matches Err(e) ==> e != StoreError::NotFound,
    {
        match entry_set_password(&self.entry, token) {
            Ok(()) => Ok(()),
            Err(e) => {
                let kind = store_error_of(e);
                // NotFound is reserved for a load that found nothing stored;
                // a refused write is a rejection.
                match kind {
                    StoreError::NotFound => Err(StoreError::Rejected),
                    StoreError::Unavailable => Err(StoreError::Unavailable),
                    StoreError::Rejected => Err(StoreError::Rejected),
                }
            },
        }
    }

    /// Returns the currently stored value; fails with `NotFound` when no
    /// value has ever been stored or it was cleared.
    pub fn load_token(&self) -> (r: Result<String, StoreError>) {
        match entry_get_password(&self.entry) {
            Ok(token) => Ok(token),
            Err(e) => Err(store_error_of(e)),
        }
    }
}

/// Saves the device token under the application's fixed service and account,
/// as the adapter the pairing flow uses. A failed save reports `Unavailable`
/// or `Rejected`, never `NotFound`, which is reserved for a load that found
/// nothing stored.
pub fn save_device_token(token: &str) -> (r: Result<(), StoreError>)
    ensures
        r matches Err(e) ==> e != StoreError::NotFound,
{
    let store = match TokenStore::open(SERVICE_NAME, TOKEN_KEY) {
        Ok(s) => s,
        Err(e) => {
            return Err(e);
        },
    };
    store.save_token(token)
}

/// Loads the device token stored under the application's fixed service and
/// account; fails with `NotFound` when none was ever saved.
pub fn load_device_token() -> (r: Result<String, StoreError>) {
    let store = match TokenStore::open(SERVICE_NAME, TOKEN_KEY) {
        Ok(s) => s,
        Err(e) => {
            return Err(e);
        },
    };
    store.load_token()
}

} // verus!
