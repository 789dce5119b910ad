//! What holds of the operations over a vault that answers faithfully.
//!
//! The platform's vault is outside this library, and nothing is proved of
//! it. Its intended behaviour is modelled here: the vault holds at most one
//! secret per credential identity, a write puts one there, a removal takes it
//! away, and each call answers from what is held. The laws say what the
//! operations then report. A vault may also fail; what is reported then is
//! the subject of the last laws.

use crate::outcome::{found, prefixes_are_not_empty, succeeded, well_formed, Outcome};
use crate::store::{delete_result, get_result, store_result, unavailable};
use crate::vault::Fault;
use vstd::prelude::*;

verus! {

/// What addresses one secret in the vault: a namespace and a key.
pub struct Identity {
    pub service: Seq<char>,
    pub key: Seq<char>,
}

/// What the vault holds after `value` was written for `id`.
pub open spec fn after_store(
    held: Map<Identity, Seq<char>>,
    id: Identity,
    value: Seq<char>,
) -> Map<Identity, Seq<char>> {
    held.insert(id, value)
}

/// What the vault holds after the secret of `id` was removed.
pub open spec fn after_delete(held: Map<Identity, Seq<char>>, id: Identity) -> Map<
    Identity,
    Seq<char>,
> {
    held.remove(id)
}

/// `reply` is the answer to a write by a vault that performs it.
pub open spec fn faithful_write(reply: Result<(), Fault>) -> bool {
    reply is Ok
}

/// `reply` is the answer to a read of `id` by a vault that holds `held`: the
/// secret where there is one, and else the report that there is none.
pub open spec fn faithful_read(
    held: Map<Identity, Seq<char>>,
    id: Identity,
    reply: Result<Seq<char>, Fault>,
) -> bool {
    match reply {
        Ok(secret) => held.contains_key(id) && held[id] == secret,
        Err(fault) => fault.not_found && !held.contains_key(id),
    }
}

/// `reply` is the answer to a removal of `id` by a vault that holds `held`:
/// done where there was a secret, and else the report that there was none.
pub open spec fn faithful_removal(
    held: Map<Identity, Seq<char>>,
    id: Identity,
    reply: Result<(), Fault>,
) -> bool {
    match reply {
        Ok(_) => held.contains_key(id),
        Err(fault) => fault.not_found && !held.contains_key(id),
    }
}

/// `o` reports a failure: no success, a diagnostic that is not empty, and no
/// value.
pub open spec fn surfaces_failure(o: Outcome) -> bool {
    &&& !o.success
    &&& o.error matches Some(e) && e.len() > 0
    &&& o.value is None
}

/// Round trip: a store followed by a get of the same identity succeeds and
/// yields the value that was stored.
pub proof fn round_trip(
    held: Map<Identity, Seq<char>>,
    id: Identity,
    value: Seq<char>,
    written: Result<(), Fault>,
    read: Result<Seq<char>, Fault>,
)
    requires
        faithful_write(written),
        faithful_read(after_store(held, id, value), id, read),
    ensures
        store_result(written) == succeeded(),
        get_result(read) == found(value),
{
}

/// Repeated store: storing the same value again for an identity leaves the
/// vault as the first store left it.
pub proof fn store_is_idempotent(held: Map<Identity, Seq<char>>, id: Identity, value: Seq<char>)
    ensures
        after_store(after_store(held, id, value), id, value) == after_store(held, id, value),
{
    assert(after_store(after_store(held, id, value), id, value) =~= after_store(held, id, value));
}

/// Overwrite: after two stores for one identity a get yields the second
/// value.
pub proof fn overwrite(
    held: Map<Identity, Seq<char>>,
    id: Identity,
    first: Seq<char>,
    second: Seq<char>,
    read: Result<Seq<char>, Fault>,
)
    requires
        faithful_read(after_store(after_store(held, id, first), id, second), id, read),
    ensures
        get_result(read) == found(second),
{
}

/// Absence is success: a get of an identity for which nothing is held
/// succeeds, with no error and no value.
pub proof fn absence_is_success(
    held: Map<Identity, Seq<char>>,
    id: Identity,
    read: Result<Seq<char>, Fault>,
)
    requires
        !held.contains_key(id),
        faithful_read(held, id, read),
    ensures
        get_result(read) == succeeded(),
{
}

/// Absence after a delete: a get of an identity whose secret was removed
/// succeeds, with no error and no value, whatever was held before.
pub proof fn deleted_is_absent(
    held: Map<Identity, Seq<char>>,
    id: Identity,
    read: Result<Seq<char>, Fault>,
)
    requires
        faithful_read(after_delete(held, id), id, read),
    ensures
        get_result(read) == succeeded(),
{
}

/// Idempotent delete: a delete succeeds whether or not a secret was held, so
/// a delete of an identity for which nothing is held succeeds, and so do two
/// deletes in a row.
pub proof fn delete_is_idempotent(
    held: Map<Identity, Seq<char>>,
    id: Identity,
    first: Result<(), Fault>,
    second: Result<(), Fault>,
)
    requires
        faithful_removal(held, id, first),
        faithful_removal(after_delete(held, id), id, second),
    ensures
        delete_result(first) == succeeded(),
        delete_result(second) == succeeded(),
        after_delete(after_delete(held, id), id) == after_delete(held, id),
{
    assert(after_delete(after_delete(held, id), id) =~= after_delete(held, id));
}

/// Delete effectiveness: after a store and a delete of one identity a get
/// succeeds without a value.
pub proof fn delete_is_effective(
    held: Map<Identity, Seq<char>>,
    id: Identity,
    value: Seq<char>,
    read: Result<Seq<char>, Fault>,
)
    requires
        faithful_read(after_delete(after_store(held, id, value), id), id, read),
    ensures
        get_result(read) == succeeded(),
{
}

/// Isolation: a store or a delete for one identity changes neither whether a
/// secret is held for another identity nor which, so every read of the other
/// is answered as before.
pub proof fn isolation(
    held: Map<Identity, Seq<char>>,
    id: Identity,
    other: Identity,
    value: Seq<char>,
    read: Result<Seq<char>, Fault>,
)
    requires
        id != other,
    ensures
        after_store(held, id, value).contains_key(other) == held.contains_key(other),
        after_delete(held, id).contains_key(other) == held.contains_key(other),
        held.contains_key(other) ==> after_store(held, id, value)[other] == held[other],
        held.contains_key(other) ==> after_delete(held, id)[other] == held[other],
        faithful_read(after_store(held, id, value), other, read) == faithful_read(
            held,
            other,
            read,
        ),
        faithful_read(after_delete(held, id), other, read) == faithful_read(held, other, read),
{
}

/// Failure surfacing, for the handle and for a store: whatever the failure,
/// the result has no success, a diagnostic that is not empty, and no value.
pub proof fn handle_and_write_failures_surface(fault: Fault)
    ensures
        surfaces_failure(unavailable(fault)),
        surfaces_failure(store_result(Err(fault))),
{
    prefixes_are_not_empty();
}

/// Failure surfacing, for a get and a delete: a failure other than the
/// report that no such entry exists gives a result with no success, a
/// diagnostic that is not empty, and no value.
pub proof fn read_and_removal_failures_surface(fault: Fault)
    requires
        !fault.not_found,
    ensures
        surfaces_failure(get_result(Err(fault))),
        surfaces_failure(delete_result(Err(fault))),
{
    prefixes_are_not_empty();
}

/// Every result of every operation has the uniform shape: an error exactly
/// on failure, never an empty one, and no value beside an error; and only a
/// get ever carries a value.
pub proof fn outcomes_are_well_formed(
    fault: Fault,
    written: Result<(), Fault>,
    read: Result<Seq<char>, Fault>,
    removed: Result<(), Fault>,
)
    ensures
        well_formed(unavailable(fault)),
        well_formed(store_result(written)),
        well_formed(get_result(read)),
        well_formed(delete_result(removed)),
        unavailable(fault).value is None,
        store_result(written).value is None,
        delete_result(removed).value is None,
{
    prefixes_are_not_empty();
}

} // verus!
