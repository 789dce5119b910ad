//! The three operations on named secrets.
//!
//! Each operation makes one handle to the vault entry of a namespace and a
//! key, makes one call on it, and turns whatever the vault answered into a
//! [`TokenResult`]. The vault decides what it answers; what the result is for
//! each answer is decided here, by [`store_outcome`], [`get_outcome`],
//! [`delete_outcome`] and [`unavailable_outcome`].

use crate::outcome::{
    failed, found, prefixes_are_not_empty, succeeded, well_formed, Outcome, TokenResult,
    DELETE_PREFIX, GET_PREFIX, HANDLE_PREFIX, STORE_PREFIX,
};
use crate::vault::{Fault, VaultError};
use vstd::prelude::*;
use vstd::string::*;

verus! {

/// The namespace under which the application keeps its secrets.
pub const SERVICE_NAME: &'static str = "slackteams";

/// The model of what the vault answered to a write or a removal.
pub open spec fn plain_reply(reply: Result<(), VaultError>) -> Result<(), Fault> {
    match reply {
        Ok(_) => Ok(()),
        Err(e) => Err(e@),
    }
}

/// The model of what the vault answered to a read.
pub open spec fn read_reply(reply: Result<String, VaultError>) -> Result<Seq<char>, Fault> {
    match reply {
        Ok(secret) => Ok(secret@),
        Err(e) => Err(e@),
    }
}

/// What is reported when no handle to the vault entry could be made: a
/// failure, whatever the operation and whatever the reason.
pub open spec fn unavailable(fault: Fault) -> Outcome {
    failed(HANDLE_PREFIX@, fault.detail)
}

/// What a store reports for the vault's answer to the write. Every failure of
/// the write is a failure of the store.
pub open spec fn store_result(written: Result<(), Fault>) -> Outcome {
    match written {
        Ok(_) => succeeded(),
        Err(fault) => failed(STORE_PREFIX@, fault.detail),
    }
}

/// What a get reports for the vault's answer to the read. A secret that was
/// found is handed on unchanged; that there is none is a success without a
/// value; every other failure of the read is a failure of the get.
pub open spec fn get_result(read: Result<Seq<char>, Fault>) -> Outcome {
    match read {
        Ok(secret) => found(secret),
        Err(fault) => if fault.not_found {
            succeeded()
        } else {
            failed(GET_PREFIX@, fault.detail)
        },
    }
}

/// What a delete reports for the vault's answer to the removal. That there
/// was nothing to remove is a success like a removal; every other failure of
/// the removal is a failure of the delete.
pub open spec fn delete_result(removed: Result<(), Fault>) -> Outcome {
    match removed {
        Ok(_) => succeeded(),
        Err(fault) => if fault.not_found {
            succeeded()
        } else {
            failed(DELETE_PREFIX@, fault.detail)
        },
    }
}

/// `o` is what a write on an entry can report.
pub open spec fn is_write_outcome(o: Outcome) -> bool {
    exists|written: Result<(), Fault>| o == #[trigger] store_result(written)
}

/// `o` is what a read on an entry can report.
pub open spec fn is_read_outcome(o: Outcome) -> bool {
    exists|read: Result<Seq<char>, Fault>| o == #[trigger] get_result(read)
}

/// `o` is what a removal on an entry can report.
pub open spec fn is_removal_outcome(o: Outcome) -> bool {
    exists|removed: Result<(), Fault>| o == #[trigger] delete_result(removed)
}

/// `o` is what is reported when the handle could not be made.
pub open spec fn is_unavailable_outcome(o: Outcome) -> bool {
    exists|fault: Fault| o == #[trigger] unavailable(fault)
}

/// The result when no handle to the vault entry could be made.
pub fn unavailable_outcome(fault: VaultError) -> (r: TokenResult)
    ensures
        r@ == unavailable(fault@),
        well_formed(r@),
{
    proof {
        prefixes_are_not_empty();
    }
    TokenResult::failure(HANDLE_PREFIX, fault.detail.as_str())
}

/// The result of a store, from what the vault answered to the write.
pub fn store_outcome(written: Result<(), VaultError>) -> (r: TokenResult)
    ensures
        r@ == store_result(plain_reply(written)),
        well_formed(r@),
{
    proof {
        prefixes_are_not_empty();
    }
    match written {
        Ok(_) => TokenResult::done(),
        Err(fault) => TokenResult::failure(STORE_PREFIX, fault.detail.as_str()),
    }
}

/// The result of a get, from what the vault answered to the read.
pub fn get_outcome(read: Result<String, VaultError>) -> (r: TokenResult)
    ensures
        r@ == get_result(read_reply(read)),
        well_formed(r@),
{
    proof {
        prefixes_are_not_empty();
    }
    match read {
        Ok(secret) => TokenResult::with_value(secret),
        Err(fault) => {
            if fault.not_found {
                TokenResult::done()
            } else {
                TokenResult::failure(GET_PREFIX, fault.detail.as_str())
            }
        },
    }
}

/// The result of a delete, from what the vault answered to the removal.
pub fn delete_outcome(removed: Result<(), VaultError>) -> (r: TokenResult)
    ensures
        r@ == delete_result(plain_reply(removed)),
        well_formed(r@),
{
    proof {
        prefixes_are_not_empty();
    }
    match removed {
        Ok(_) => TokenResult::done(),
        Err(fault) => {
            if fault.not_found {
                TokenResult::done()
            } else {
                TokenResult::failure(DELETE_PREFIX, fault.detail.as_str())
            }
        },
    }
}

/// Writes `value` as the secret of `entry`, over any earlier one, and
/// reports what [`store_result`] gives for the vault's answer.
pub fn write_secret(entry: &keyring::Entry, value: &str) -> (r: TokenResult)
    ensures
        is_write_outcome(r@),
        well_formed(r@),
        r@.value is None,
{
    match entry.set_password(value) {
        Ok(_) => store_outcome(Ok(())),
        Err(e) => store_outcome(Err(VaultError::from_keyring(e))),
    }
}

/// Reads the secret of `entry` and reports what [`get_result`] gives for the
/// vault's answer.
pub fn read_secret(entry: &keyring::Entry) -> (r: TokenResult)
    ensures
        is_read_outcome(r@),
        well_formed(r@),
{
    match entry.get_password() {
        Ok(secret) => get_outcome(Ok(secret)),
        Err(e) => get_outcome(Err(VaultError::from_keyring(e))),
    }
}

/// Removes the secret of `entry` and reports what [`delete_result`] gives
/// for the vault's answer.
pub fn remove_secret(entry: &keyring::Entry) -> (r: TokenResult)
    ensures
        is_removal_outcome(r@),
        well_formed(r@),
        r@.value is None,
{
    match entry.delete_credential() {
        Ok(_) => delete_outcome(Ok(())),
        Err(e) => delete_outcome(Err(VaultError::from_keyring(e))),
    }
}

/// Access to the secrets of one namespace of the platform's vault.
///
/// It keeps nothing but the namespace: every operation asks the vault anew.
pub struct CredentialStore {
    service: String,
}

impl CredentialStore {
    /// The namespace that this store addresses.
    pub closed spec fn namespace(&self) -> Seq<char> {
        self.service@
    }

    /// A store for the secrets of the namespace `service`.
    pub fn new(service: &str) -> (s: CredentialStore)
        ensures
            s.namespace() == service@,
    {
        CredentialStore { service: String::from_str(service) }
    }

    /// The namespace that this store addresses.
    pub fn service(&self) -> (s: &str)
        ensures
            s@ == self.namespace(),
    {
        self.service.as_str()
    }

    /// Stores `value` under `key`, over any earlier value.
    ///
    /// The result is what [`unavailable`] gives where the handle could not be
    /// made, and else what [`store_result`] gives for the vault's answer.
    pub fn store(&self, key: &str, value: &str) -> (r: TokenResult)
        ensures
            is_unavailable_outcome(r@) || is_write_outcome(r@),
        well_formed(r@),
        r@.value is None,
            well_formed(r@),
            r@.value is None,
    {
        match keyring::Entry::new(self.service.as_str(), key) {
            Ok(entry) => write_secret(&entry, value),
            Err(e) => unavailable_outcome(VaultError::from_keyring(e)),
        }
    }

    /// Looks up the secret stored under `key`.
    ///
    /// The result is what [`unavailable`] gives where the handle could not be
    /// made, and else what [`get_result`] gives for the vault's answer.
    pub fn get(&self, key: &str) -> (r: TokenResult)
        ensures
            is_unavailable_outcome(r@) || is_read_outcome(r@),
        well_formed(r@),
            well_formed(r@),
    {
        match keyring::Entry::new(self.service.as_str(), key) {
            Ok(entry) => read_secret(&entry),
            Err(e) => unavailable_outcome(VaultError::from_keyring(e)),
        }
    }

    /// Removes the secret stored under `key`, if there is one.
    ///
    /// The result is what [`unavailable`] gives where the handle could not be
    /// made, and else what [`delete_result`] gives for the vault's answer.
    pub fn delete(&self, key: &str) -> (r: TokenResult)
        ensures
            is_unavailable_outcome(r@) || is_removal_outcome(r@),
        well_formed(r@),
        r@.value is None,
            well_formed(r@),
            r@.value is None,
    {
        match keyring::Entry::new(self.service.as_str(), key) {
            Ok(entry) => remove_secret(&entry),
            Err(e) => unavailable_outcome(VaultError::from_keyring(e)),
        }
    }
}

/// Stores `value` under `key` in the application's namespace.
pub fn store_token(key: String, value: String) -> (r: TokenResult)
    ensures
        is_unavailable_outcome(r@) || is_write_outcome(r@),
        well_formed(r@),
        r@.value is None,
{
    CredentialStore::new(SERVICE_NAME).store(key.as_str(), value.as_str())
}

/// Looks up the secret stored under `key` in the application's namespace.
pub fn get_token(key: String) -> (r: TokenResult)
    ensures
        is_unavailable_outcome(r@) || is_read_outcome(r@),
        well_formed(r@),
{
    CredentialStore::new(SERVICE_NAME).get(key.as_str())
}

/// Removes the secret stored under `key` in the application's namespace.
pub fn delete_token(key: String) -> (r: TokenResult)
    ensures
        is_unavailable_outcome(r@) || is_removal_outcome(r@),
        well_formed(r@),
        r@.value is None,
{
    CredentialStore::new(SERVICE_NAME).delete(key.as_str())
}

} // verus!
