//! The concurrent table that holds the registered routers, and what is taken on trust
//! of it.
//!
//! The table is a `dashmap::DashMap`. Verus does not look inside it: the declarations
//! and the small functions below say what each call does to the entries, and every
//! proof about the registry rests on them.
//!
//! Each entry is kept behind an `Arc`, so that whoever needs an entry can take a share
//! of it and close the access to the table at once. No access is ever open while code
//! from outside this crate runs.

use crate::dispatch::VMRouterStorage;
use crate::key::RouterId;
use dashmap::mapref::one::RefMut;
use dashmap::try_result::TryResult;
use dashmap::DashMap;
use std::sync::Arc;
use vstd::prelude::*;

verus! {

/// The mathematical form of a table of routers: the entry kept for each identity.
pub type Routers = Map<RouterId, VMRouterStorage>;

/// `dashmap::DashMap`, taken as an opaque type.
#[verifier::external_type_specification]
#[verifier::external_body]
#[verifier::reject_recursive_types(K)]
#[verifier::reject_recursive_types(V)]
#[verifier::reject_recursive_types(S)]
pub struct ExDashMap<K, V, S>(DashMap<K, V, S>);

/// `dashmap::mapref::one::RefMut`, the open access to one entry, taken as an opaque type.
#[verifier::external_type_specification]
#[verifier::external_body]
#[verifier::reject_recursive_types(K)]
#[verifier::reject_recursive_types(V)]
pub struct ExRefMut<'a, K, V>(RefMut<'a, K, V>);

/// The entries that a table holds.
pub uninterp spec fn entries(table: DashMap<(u64, [u8; 20]), Arc<VMRouterStorage>>) -> Routers;

/// The entry that an open access refers to.
pub uninterp spec fn guarded(guard: RefMut<(u64, [u8; 20]), Arc<VMRouterStorage>>) -> VMRouterStorage;

/// The identity that a key of the table stands for.
pub open spec fn id_of(key: (u64, [u8; 20])) -> RouterId {
    (key.0, key.1@)
}

/// How a request for access to one entry of the table ended.
pub enum Access<'a> {
    /// The entry is there, and the access to it is open until the guard is dropped.
    Present(RefMut<'a, (u64, [u8; 20]), Arc<VMRouterStorage>>),
    /// The part of the table that would hold the entry was free, and holds no such entry.
    Absent,
    /// The part of the table that would hold the entry was in use.
    Locked,
}

/// Makes an empty table with `DashMap::new`.
///
/// Trusted: the new table holds no entry.
#[verifier::external_body]
pub(crate) fn table_new() -> (table: DashMap<(u64, [u8; 20]), Arc<VMRouterStorage>>)
    ensures
        entries(table) == Routers::empty(),
{
    DashMap::new()
}

/// Asks `DashMap::contains_key` whether the table holds an entry for `key`.
///
/// Trusted: the answer is whether `key` is among the entries. The call waits while an
/// access to the same part of the table is open. This crate keeps one open only for as
/// long as it takes to share the entry behind it, and calls nothing else meanwhile, so
/// the wait ends.
#[verifier::external_body]
pub(crate) fn table_contains(
    table: &DashMap<(u64, [u8; 20]), Arc<VMRouterStorage>>,
    key: (u64, [u8; 20]),
) -> (found: bool)
    ensures
        found == entries(*table).contains_key(id_of(key)),
{
    table.contains_key(&key)
}

/// Puts `storage` under `key` with `DashMap::insert`.
///
/// Trusted: afterwards `key` holds `storage` and every other entry is as before; what
/// comes back is the entry that `key` held before, if it held one. The exclusive borrow
/// keeps every access to the table closed during the call, as the method asks, and the
/// call does not unwind.
#[verifier::external_body]
pub(crate) fn table_insert(
    table: &mut DashMap<(u64, [u8; 20]), Arc<VMRouterStorage>>,
    key: (u64, [u8; 20]),
    storage: Arc<VMRouterStorage>,
) -> (previous: Option<Arc<VMRouterStorage>>)
    ensures
        entries(*final(table)) == entries(*old(table)).insert(id_of(key), *storage),
        previous is Some <==> entries(*old(table)).contains_key(id_of(key)),
        previous matches Some(before) ==> *before == entries(*old(table))[id_of(key)],
    no_unwind
{
    table.insert(key, storage)
}

/// Takes the entry of `key` out with `DashMap::remove`.
///
/// Trusted: afterwards `key` holds nothing and every other entry is as before; what
/// comes back is the entry that `key` held, if it held one. The exclusive borrow keeps
/// every access to the table closed during the call, as the method asks, and the call
/// does not unwind.
#[verifier::external_body]
pub(crate) fn table_remove(
    table: &mut DashMap<(u64, [u8; 20]), Arc<VMRouterStorage>>,
    key: (u64, [u8; 20]),
) -> (removed: Option<Arc<VMRouterStorage>>)
    ensures
        entries(*final(table)) == entries(*old(table)).remove(id_of(key)),
        removed is Some <==> entries(*old(table)).contains_key(id_of(key)),
        removed matches Some(before) ==> *before == entries(*old(table))[id_of(key)],
    no_unwind
{
    table.remove(&key).map(|pair| pair.1)
}

/// Asks for access to the entry of `key` with `DashMap::try_get_mut`, which does not
/// wait.
///
/// Trusted: an access is opened only to an entry that is there, and refers to that
/// entry; `Absent` is said only of a key that holds nothing. When `Locked` comes back
/// is left open: it depends on who else is using the table.
#[verifier::external_body]
pub(crate) fn table_try_get_mut<'a>(
    table: &'a DashMap<(u64, [u8; 20]), Arc<VMRouterStorage>>,
    key: (u64, [u8; 20]),
) -> (access: Access<'a>)
    ensures
        access is Absent ==> !entries(*table).contains_key(id_of(key)),
        access matches Access::Present(guard) ==> entries(*table).contains_key(id_of(key))
            && guarded(guard) == entries(*table)[id_of(key)],
{
    match table.try_get_mut(&key) {
        TryResult::Present(guard) => Access::Present(guard),
        TryResult::Absent => Access::Absent,
        TryResult::Locked => Access::Locked,
    }
}

/// Reads the entry behind an open access with `RefMut::value`.
///
/// Trusted: the reference is to the entry that the access refers to.
#[verifier::external_body]
pub(crate) fn guard_value<'a, 'b>(
    guard: &'b RefMut<'a, (u64, [u8; 20]), Arc<VMRouterStorage>>,
) -> (storage: &'b Arc<VMRouterStorage>)
    ensures
        **storage == guarded(*guard),
{
    guard.value()
}

/// Takes another share of an entry with `Arc::clone`.
///
/// Trusted: the new share is of the same entry.
#[verifier::external_body]
pub(crate) fn share(storage: &Arc<VMRouterStorage>) -> (shared: Arc<VMRouterStorage>)
    ensures
        *shared == **storage,
{
    Arc::clone(storage)
}

} // verus!
