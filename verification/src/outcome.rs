//! The uniform result of an operation, and its mathematical model.

use vstd::prelude::*;
use vstd::string::*;

verus! {

/// Opens the diagnostic when no handle to the vault entry could be made.
pub const HANDLE_PREFIX: &'static str = "Failed to create keyring entry: ";

/// Opens the diagnostic when the vault rejected a write.
pub const STORE_PREFIX: &'static str = "Failed to store token: ";

/// Opens the diagnostic when the vault failed a read.
pub const GET_PREFIX: &'static str = "Failed to get token: ";

/// Opens the diagnostic when the vault failed a removal.
pub const DELETE_PREFIX: &'static str = "Failed to delete token: ";

/// What an operation reports, as plain values: the model of [`TokenResult`].
pub struct Outcome {
    pub success: bool,
    pub error: Option<Seq<char>>,
    pub value: Option<Seq<char>>,
}

/// What an operation reports to its caller.
///
/// `success` is true unless the vault failed; `error` is there exactly when
/// `success` is false; `value` is there only when a read found a secret.
#[derive(Debug)]
pub struct TokenResult {
    pub success: bool,
    pub error: Option<String>,
    pub value: Option<String>,
}

/// The text of an optional string.
pub open spec fn text_of(s: Option<String>) -> Option<Seq<char>> {
    match s {
        Some(t) => Some(t@),
        None => None,
    }
}

impl View for TokenResult {
    type V = Outcome;

    open spec fn view(&self) -> Outcome {
        Outcome { success: self.success, error: text_of(self.error), value: text_of(self.value) }
    }
}

/// The operation completed and has no secret to hand back.
pub open spec fn succeeded() -> Outcome {
    Outcome { success: true, error: None, value: None }
}

/// A read completed and found `secret`.
pub open spec fn found(secret: Seq<char>) -> Outcome {
    Outcome { success: true, error: None, value: Some(secret) }
}

/// The vault failed; the diagnostic is `prefix` followed by `detail`.
pub open spec fn failed(prefix: Seq<char>, detail: Seq<char>) -> Outcome {
    Outcome { success: false, error: Some(prefix + detail), value: None }
}

/// The shape every outcome has: an error exactly on failure, never an empty
/// one, and no value beside an error.
pub open spec fn well_formed(o: Outcome) -> bool {
    &&& o.success <==> o.error is None
    &&& !o.success ==> o.value is None
    &&& o.error matches Some(e) ==> e.len() > 0
}

/// The four prefixes of a diagnostic are not empty.
pub proof fn prefixes_are_not_empty()
    ensures
        HANDLE_PREFIX@.len() > 0,
        STORE_PREFIX@.len() > 0,
        GET_PREFIX@.len() > 0,
        DELETE_PREFIX@.len() > 0,
{
    reveal_strlit("Failed to create keyring entry: ");
    reveal_strlit("Failed to store token: ");
    reveal_strlit("Failed to get token: ");
    reveal_strlit("Failed to delete token: ");
}

impl TokenResult {
    /// The result of an operation that completed without a secret to return.
    pub fn done() -> (r: TokenResult)
        ensures
            r@ == succeeded(),
    {
        TokenResult { success: true, error: None, value: None }
    }

    /// The result of a read that found `secret`, which is passed on as it is.
    pub fn with_value(secret: String) -> (r: TokenResult)
        ensures
            r@ == found(secret@),
    {
        TokenResult { success: true, error: None, value: Some(secret) }
    }

    /// The result of a failed operation, with `prefix` and `detail` joined
    /// into its diagnostic.
    pub fn failure(prefix: &str, detail: &str) -> (r: TokenResult)
        ensures
            r@ == failed(prefix@, detail@),
    {
        let mut message = String::from_str(prefix);
        message.append(detail);
        TokenResult { success: false, error: Some(message), value: None }
    }
}

} // verus!
