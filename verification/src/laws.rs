//! What holds of the registry whatever it holds and whatever is asked of it.
//!
//! Each statement is about the mathematical form of the registry and the functions of
//! [`crate::model`], in which the operations of [`crate::registry`] state what they do.

use crate::dispatch::{dispatched, VMRouterStorage};
use crate::error::RouterError;
use crate::key::{RouterId, VMRouter};
use crate::model::{after_init, after_reset, init_result, refused, registered, route_admits};
use crate::table::Routers;
use vstd::prelude::*;

verus! {

/// A request that may change what a registry holds.
pub enum Change {
    /// Register `storage` for the contract at `key`.
    Init { key: RouterId, storage: VMRouterStorage },
    /// Take down the router of the contract at `key`.
    Reset { key: RouterId },
}

impl Change {
    /// The registry after this request was made of `before`.
    pub open spec fn apply(self, before: Routers) -> Routers {
        match self {
            Change::Init { key, storage } => after_init(before, key, storage),
            Change::Reset { key } => after_reset(before, key),
        }
    }

    /// Whether this request registers something for `key`.
    pub open spec fn registers(self, key: RouterId) -> bool {
        self matches Change::Init { key: registered, .. } && registered == key
    }
}

/// The registry that a new registry becomes by the requests of `changes`, made in order.
pub open spec fn replay(changes: Seq<Change>) -> Routers
    decreases changes.len(),
{
    if changes.len() == 0 {
        Routers::empty()
    } else {
        changes.last().apply(replay(changes.drop_last()))
    }
}

/// A contract for which nothing was ever registered has no router: however a registry
/// came to be what it is, it holds no entry for an identity that none of the requests
/// registered.
pub proof fn law_unregistered_without_init(changes: Seq<Change>, key: RouterId)
    requires
        forall|i: int| 0 <= i < changes.len() ==> !(#[trigger] changes[i]).registers(key),
    ensures
        !registered(replay(changes), key),
    decreases changes.len(),
{
    if changes.len() > 0 {
        let earlier = changes.drop_last();
        assert forall|i: int| 0 <= i < earlier.len() implies !(#[trigger] earlier[i]).registers(
            key,
        ) by {
            assert(earlier[i] == changes[i]);
        }
        law_unregistered_without_init(earlier, key);
        assert(!changes.last().registers(key));
    }
}

/// A call routed to a contract that has no router is refused: it gives no answer, and
/// the refusal names the contract's address.
pub proof fn law_route_needs_router(
    routers: Routers,
    key: VMRouter,
    calldata: Seq<u8>,
    result: Result<Result<Seq<u8>, Seq<u8>>, RouterError>,
)
    requires
        !registered(routers, key@),
        route_admits(routers, key, calldata, result),
    ensures
        result is Err,
        result->Err_0 !is AlreadyInitialized,
        result->Err_0.address() == key.contract_address,
{
}

/// Once a router was asked to be registered for a contract, the contract has one, and
/// every further request to register one is refused as a duplicate that names the
/// contract's address, and changes nothing.
pub proof fn law_init_registers_once(
    before: Routers,
    key: VMRouter,
    storage: VMRouterStorage,
    again: VMRouterStorage,
)
    ensures
        registered(after_init(before, key@, storage), key@),
        init_result(after_init(before, key@, storage), key) == Err::<(), RouterError>(
            RouterError::AlreadyInitialized { contract_address: key.contract_address },
        ),
        after_init(after_init(before, key@, storage), key@, again) == after_init(
            before,
            key@,
            storage,
        ),
        !registered(before, key@) ==> init_result(before, key) is Ok && after_init(
            before,
            key@,
            storage,
        )[key@] == storage,
{
}

/// Taking a contract's router down frees its identity: the contract has no router,
/// and a router can be registered for it again, which is then the one it has.
pub proof fn law_reset_frees_identity(
    before: Routers,
    key: VMRouter,
    storage: VMRouterStorage,
    next: VMRouterStorage,
)
    ensures
        !registered(after_reset(after_init(before, key@, storage), key@), key@),
        init_result(after_reset(after_init(before, key@, storage), key@), key) is Ok,
        registered(
            after_init(after_reset(after_init(before, key@, storage), key@), key@, next),
            key@,
        ),
        after_init(after_reset(after_init(before, key@, storage), key@), key@, next)[key@]
            == next,
{
}

/// A registry holds finitely many routers, whatever was asked of it.
pub proof fn law_registry_is_finite(changes: Seq<Change>)
    ensures
        replay(changes).dom().finite(),
    decreases changes.len(),
{
    if changes.len() > 0 {
        law_registry_is_finite(changes.drop_last());
        law_changes_keep_finite(replay(changes.drop_last()), changes.last());
    }
}

/// No request makes a finite registry infinite.
pub proof fn law_changes_keep_finite(before: Routers, change: Change)
    requires
        before.dom().finite(),
    ensures
        change.apply(before).dom().finite(),
{
}

/// Registering a router for a contract that has none makes the registry one entry
/// larger. A refused request leaves the number of entries as it was.
pub proof fn law_init_adds_one_entry(before: Routers, key: RouterId, storage: VMRouterStorage)
    requires
        before.dom().finite(),
    ensures
        !registered(before, key) ==> after_init(before, key, storage).len() == before.len() + 1,
        registered(before, key) ==> after_init(before, key, storage).len() == before.len(),
{
}

/// Taking down the router of a contract that has one makes the registry one entry
/// smaller. Where there was none, the number of entries stays.
pub proof fn law_reset_removes_one_entry(before: Routers, key: RouterId)
    requires
        before.dom().finite(),
    ensures
        registered(before, key) ==> after_reset(before, key).len() == before.len() - 1,
        !registered(before, key) ==> after_reset(before, key).len() == before.len(),
{
}

/// Taking down a router that is not there changes nothing.
pub proof fn law_reset_of_free_identity(before: Routers, key: RouterId)
    requires
        !registered(before, key),
    ensures
        after_reset(before, key) == before,
{
    assert(after_reset(before, key) =~= before);
}

/// A call routed to a contract right after `storage` was registered for it is answered
/// by a handler that the factory in `storage` made, with that handler's own answer to
/// the very same calldata. If it is refused, then only because the table was in use.
pub proof fn law_route_passes_through(
    before: Routers,
    key: VMRouter,
    storage: VMRouterStorage,
    calldata: Seq<u8>,
    result: Result<Result<Seq<u8>, Seq<u8>>, RouterError>,
)
    requires
        !registered(before, key@),
        route_admits(after_init(before, key@, storage), key, calldata, result),
    ensures
        result matches Ok(answer) ==> dispatched(storage, calldata, answer),
        result matches Err(error) ==> error == (RouterError::Locked {
            contract_address: key.contract_address,
        }),
{
}

/// Two identities differ exactly when they differ in the execution context or in the
/// address.
pub proof fn law_identities_differ_by_parts(first: VMRouter, second: VMRouter)
    ensures
        (first != second) <==> (first.thread_id != second.thread_id || first.contract_address@
            != second.contract_address@),
        (first != second) <==> (first@ != second@),
{
    first.lemma_view_injective(second);
}

/// What is done for one contract leaves every other contract alone: registering or
/// taking down the router of `first` changes neither whether `second` has a router,
/// nor which, nor what a request to register one for `second` answers.
pub proof fn law_distinct_identities_independent(
    before: Routers,
    first: VMRouter,
    storage: VMRouterStorage,
    second: VMRouter,
)
    requires
        first@ != second@,
    ensures
        registered(after_init(before, first@, storage), second@) == registered(before, second@),
        registered(after_reset(before, first@), second@) == registered(before, second@),
        registered(before, second@) ==> after_init(before, first@, storage)[second@]
            == before[second@] && after_reset(before, first@)[second@] == before[second@],
        init_result(after_init(before, first@, storage), second) == init_result(before, second),
        init_result(after_reset(before, first@), second) == init_result(before, second),
{
}

/// Routers registered for two different contracts do not get in each other's way:
/// whichever request comes first, both are granted or refused alike, and the registry
/// ends up the same.
pub proof fn law_distinct_inits_commute(
    before: Routers,
    first: VMRouter,
    first_storage: VMRouterStorage,
    second: VMRouter,
    second_storage: VMRouterStorage,
)
    requires
        first@ != second@,
    ensures
        after_init(after_init(before, first@, first_storage), second@, second_storage)
            == after_init(after_init(before, second@, second_storage), first@, first_storage),
        init_result(after_init(before, second@, second_storage), first) == init_result(
            before,
            first,
        ),
        init_result(after_init(before, first@, first_storage), second) == init_result(
            before,
            second,
        ),
{
    assert(after_init(after_init(before, first@, first_storage), second@, second_storage)
        =~= after_init(after_init(before, second@, second_storage), first@, first_storage));
}

} // verus!
