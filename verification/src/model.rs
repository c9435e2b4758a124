//! What each operation of the registry does, said over the mathematical form of the
//! registry: a map from identities to the entries kept for them.

use crate::dispatch::{dispatched, outcome, Handler, VMRouterStorage};
use crate::error::RouterError;
use crate::key::{RouterId, VMRouter};
use crate::table::Routers;
use stylus_sdk::ArbResult;
use vstd::prelude::*;

verus! {

/// Whether a router is registered under `key`.
pub open spec fn registered(routers: Routers, key: RouterId) -> bool {
    routers.contains_key(key)
}

/// What registering under `key` answers: it is refused, with the contract's address,
/// exactly when a router is registered there already.
pub open spec fn init_result(before: Routers, key: VMRouter) -> Result<(), RouterError> {
    if registered(before, key@) {
        Err(RouterError::AlreadyInitialized { contract_address: key.contract_address })
    } else {
        Ok(())
    }
}

/// The registry after `storage` was offered for `key`: a free identity takes it, and a
/// taken one keeps what it has.
pub open spec fn after_init(before: Routers, key: RouterId, storage: VMRouterStorage) -> Routers {
    if registered(before, key) {
        before
    } else {
        before.insert(key, storage)
    }
}

/// The registry after the router of `key` was taken down: `key` is free, whether or not
/// it was taken, and nothing else has changed.
pub open spec fn after_reset(before: Routers, key: RouterId) -> Routers {
    before.remove(key)
}

/// Whether asking for the entry of `key` may be refused with `error`.
///
/// A missing router is reported only of a free identity. That the table was in use may
/// be reported of any identity: it is the table that decides.
pub open spec fn refused(routers: Routers, key: VMRouter, error: RouterError) -> bool {
    ||| error == (RouterError::Locked { contract_address: key.contract_address })
    ||| (!registered(routers, key@) && error == (RouterError::NotInitialized {
        contract_address: key.contract_address,
    }))
}

/// Whether asking for a fresh handler of the contract at `key` may end in `result`: a
/// handler comes only from the factory registered under `key`.
pub open spec fn router_admits(
    routers: Routers,
    key: VMRouter,
    result: Result<Handler, RouterError>,
) -> bool {
    match result {
        Ok(handler) => registered(routers, key@) && routers[key@].router_factory.creates(handler),
        Err(error) => refused(routers, key, error),
    }
}

/// What a routed call ended in, with the handler's answer as plain sequences.
pub open spec fn routed(result: Result<ArbResult, RouterError>) -> Result<
    Result<Seq<u8>, Seq<u8>>,
    RouterError,
> {
    match result {
        Ok(answer) => Ok(outcome(answer)),
        Err(error) => Err(error),
    }
}

/// Whether routing `calldata` to the contract at `key` may end in `result`: an answer
/// is the answer to `calldata` of a handler that the factory registered under `key`
/// made, passed on as it is.
pub open spec fn route_admits(
    routers: Routers,
    key: VMRouter,
    calldata: Seq<u8>,
    result: Result<Result<Seq<u8>, Seq<u8>>, RouterError>,
) -> bool {
    match result {
        Ok(answer) => registered(routers, key@) && dispatched(routers[key@], calldata, answer),
        Err(error) => refused(routers, key, error),
    }
}

} // verus!
