//! Named secrets kept in the operating system's credential store.
//!
//! Three operations (store, get, delete) address one secret each by a
//! namespace and a key, and report what happened in one uniform shape,
//! [`TokenResult`]. A missing secret is a success without a value, never a
//! failure.

pub mod laws;
pub mod outcome;
pub mod store;
pub mod vault;

pub use outcome::{Outcome, TokenResult};
pub use store::{delete_token, get_token, store_token, CredentialStore, SERVICE_NAME};
pub use vault::VaultError;
