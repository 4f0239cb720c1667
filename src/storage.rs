//! The factory's persistent state and the storage-backed registry it keeps.
use near_sdk::collections::Vector;
use near_sdk::AccountId;
use vstd::prelude::*;

verus! {

#[verifier::external_type_specification]
#[verifier::external_body]
pub struct ExAccountId(AccountId);

#[verifier::external_type_specification]
#[verifier::external_body]
#[verifier::reject_recursive_types(T)]
pub struct ExVector<T>(Vector<T>);

/// The length that a registry handle records: the `len` field of the vector.
pub uninterp spec fn stored_len(v: Vector<AccountId>) -> nat;

/// What storage holds for a registry handle at `index`: the entry under the
/// vector's prefix followed by `index` as eight little-endian bytes, decoded as
/// an `AccountId`; `None` when no such entry exists or it does not decode.
pub uninterp spec fn stored_entry(v: Vector<AccountId>, index: u64) -> Option<AccountId>;

/// Every index below the recorded length holds an entry that decodes: the
/// write path appends entries and the length together, so indices stay
/// contiguous.
pub open spec fn store_intact(v: Vector<AccountId>) -> bool {
    forall|index: u64| index < stored_len(v) ==> (#[trigger] stored_entry(v, index)) is Some
}

/// The identifiers that a registry handle refers to, in index order.
pub open spec fn stored_elements(v: Vector<AccountId>) -> Seq<AccountId> {
    Seq::new(stored_len(v), |i: int| stored_entry(v, i as u64)->0)
}

/// Relies on `near_sdk::collections::Vector::len`: it returns the `len` field.
#[verifier::external_body]
pub(crate) fn registry_len(v: &Vector<AccountId>) -> (r: u64)
    ensures
        r == stored_len(*v),
{
    v.len()
}

/// Relies on `near_sdk::collections::Vector::get`: `None` at or past the
/// recorded length, the decoded entry at `index` otherwise. Below the length
/// it aborts when the entry is missing or does not decode, so that case is
/// excluded.
#[verifier::external_body]
pub(crate) fn registry_get(v: &Vector<AccountId>, index: u64) -> (r: Option<AccountId>)
    requires
        index < stored_len(*v) ==> stored_entry(*v, index) is Some,
    ensures
        index >= stored_len(*v) ==> r is None,
        index < stored_len(*v) ==> r == stored_entry(*v, index),
{
    v.get(index)
}

/// Relies on `near_sdk::collections::Vector::to_vec`: the decoded entries at
/// every index below the recorded length, in index order. It reads them
/// through `get`, so it aborts on the same stores.
#[verifier::external_body]
pub(crate) fn registry_to_vec(v: &Vector<AccountId>) -> (r: Vec<AccountId>)
    requires
        store_intact(*v),
    ensures
        r@ == stored_elements(*v),
{
    v.to_vec()
}

/// The market factory's state: the registry of deployed market accounts,
/// appended to by the factory's write path and only read here.
pub struct MarketFactory {
    pub markets: Vector<AccountId>,
}

impl View for MarketFactory {
    type V = Seq<AccountId>;

    open spec fn view(&self) -> Seq<AccountId> {
        stored_elements(self.markets)
    }
}

} // verus!
