//! The platform's secret vault, as this library sees it.
//!
//! The vault is the `keyring` crate's `Entry`. Nothing is proved of it: what
//! it answers depends on the platform, on what other processes have written
//! and on whether the secret service can be reached. The library reads two
//! things from a failure, whether it says "no such entry" and its text, and
//! keeps them in [`VaultError`].

use vstd::prelude::*;

verus! {

/// `keyring::Entry`, a handle to one secret of the platform's vault.
#[verifier::external_type_specification]
#[verifier::external_body]
pub struct ExEntry(keyring::Entry);

/// `keyring::Error`, the failure of a call into the vault.
#[verifier::external_type_specification]
#[verifier::external_body]
pub struct ExError(keyring::Error);

/// `keyring::Entry::new`: makes a handle for a namespace and a key, or fails.
/// Nothing is claimed of which of the two happens. (It panics only where an
/// earlier panic has poisoned the lock that guards the crate's default store.)
pub assume_specification[ keyring::Entry::new ](service: &str, user: &str) -> (r: Result<
    keyring::Entry,
    keyring::Error,
>)
;

/// `keyring::Entry::set_password`: writes the secret of an entry, or fails.
/// Nothing is claimed of which of the two happens.
pub assume_specification[ keyring::Entry::set_password ](
    entry: &keyring::Entry,
    password: &str,
) -> (r: Result<(), keyring::Error>)
;

/// `keyring::Entry::get_password`: reads the secret of an entry, or fails.
/// Nothing is claimed of what comes back.
pub assume_specification[ keyring::Entry::get_password ](entry: &keyring::Entry) -> (r: Result<
    String,
    keyring::Error,
>)
;

/// `keyring::Entry::delete_credential`: removes an entry's secret, or fails.
/// Nothing is claimed of which of the two happens.
pub assume_specification[ keyring::Entry::delete_credential ](entry: &keyring::Entry) -> (r: Result<
    (),
    keyring::Error,
>)
;

/// Whether a failure of the vault is the variant `keyring::Error::NoEntry`,
/// the report that no credential exists for the entry.
pub uninterp spec fn reports_no_entry(e: keyring::Error) -> bool;

/// Tells the variant `keyring::Error::NoEntry` from the others. The answer
/// rests on the variant alone, and [`reports_no_entry`] is its name; nothing
/// is claimed of which failures are that variant.
#[verifier::external_body]
fn is_no_entry(e: &keyring::Error) -> (r: bool)
    ensures
        r == reports_no_entry(*e),
{
    matches!(e, keyring::Error::NoEntry)
}

/// A failure of the vault, as plain values: the model of [`VaultError`].
pub struct Fault {
    pub not_found: bool,
    pub detail: Seq<char>,
}

/// A failure of the vault: whether it reported that no such entry exists,
/// and the text that describes it.
#[derive(Debug)]
pub struct VaultError {
    pub not_found: bool,
    pub detail: String,
}

impl View for VaultError {
    type V = Fault;

    open spec fn view(&self) -> Fault {
        Fault { not_found: self.not_found, detail: self.detail@ }
    }
}

impl VaultError {
    /// Reads from a failure of the vault what this library decides on:
    /// whether it is the report that no such entry exists, and the text that
    /// the failure displays as.
    pub(crate) fn from_keyring(e: keyring::Error) -> (fault: VaultError)
        ensures
            fault.not_found == reports_no_entry(e),
            vstd::string::to_string_from_display_ensures::<keyring::Error>(&e, fault.detail),
    {
        let not_found = is_no_entry(&e);
        let detail = e.to_string();
        VaultError { not_found, detail }
    }
}

} // verus!
