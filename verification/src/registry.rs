//! The registry of routers and the operations on it.

use crate::dispatch::{dispatched, outcome, CreateRouter, Handler, Router, VMRouterStorage};
use crate::error::RouterError;
use crate::key::VMRouter;
use crate::model::{
    after_init, after_reset, init_result, registered, route_admits, routed, router_admits,
};
use crate::table::{
    entries, guard_value, guarded, share, table_contains, table_insert, table_new, table_remove,
    table_try_get_mut, Access, Routers,
};
use dashmap::mapref::one::RefMut;
use dashmap::DashMap;
use std::sync::Arc;
use stylus_sdk::ArbResult;
use vstd::prelude::*;

verus! {

/// The routers of the simulated contracts, one entry at most for each identity.
///
/// Its mathematical form is the map from identities to entries. It holds finitely many.
pub struct Registry {
    table: DashMap<(u64, [u8; 20]), Arc<VMRouterStorage>>,
}

impl View for Registry {
    type V = Routers;

    closed spec fn view(&self) -> Routers {
        entries(self.table)
    }
}

impl Registry {
    #[verifier::type_invariant]
    spec fn finitely_many(self) -> bool {
        entries(self.table).dom().finite()
    }

    /// A registry in which no router is registered.
    pub fn new() -> (routers: Self)
        ensures
            routers@ == Routers::empty(),
    {
        Self { table: table_new() }
    }
}

impl VMRouter {
    /// Whether a router is registered for the contract.
    pub fn exists_in(self, routers: &Registry) -> (found: bool)
        ensures
            found == registered(routers@, self@),
            routers@.dom().finite(),
    {
        proof {
            use_type_invariant(routers);
        }
        table_contains(&routers.table, self.parts())
    }

    /// Registers `storage`, which holds the maker of the contract's handlers.
    ///
    /// A contract that has a router keeps it: the request is refused, the refusal names
    /// the contract's address, and the registry is left as it was.
    pub fn init_storage(self, routers: &mut Registry, storage: VMRouterStorage) -> (result: Result<
        (),
        RouterError,
    >)
        ensures
            result == init_result(old(routers)@, self),
            final(routers)@ == after_init(old(routers)@, self@, storage),
            old(routers)@.dom().finite(),
            final(routers)@.dom().finite(),
    {
        proof {
            use_type_invariant(&*routers);
        }
        if table_contains(&routers.table, self.parts()) {
            Err(RouterError::AlreadyInitialized { contract_address: self.contract_address })
        } else {
            table_insert(&mut routers.table, self.parts(), Arc::new(storage));
            Ok(())
        }
    }

    /// Takes the contract's router down. Nothing happens if it has none.
    pub fn reset_storage(self, routers: &mut Registry)
        ensures
            final(routers)@ == after_reset(old(routers)@, self@),
            old(routers)@.dom().finite(),
            final(routers)@.dom().finite(),
    {
        proof {
            use_type_invariant(&*routers);
        }
        table_remove(&mut routers.table, self.parts());
    }

    /// Asks the table for access to the contract's entry. The table answers at once.
    fn storage<'a>(self, routers: &'a Registry) -> (access: Access<'a>)
        ensures
            access is Absent ==> !registered(routers@, self@),
            access matches Access::Present(guard) ==> registered(routers@, self@) && guarded(guard)
                == routers@[self@],
    {
        table_try_get_mut(&routers.table, self.parts())
    }

    /// Says what a request for access to the contract's entry comes to: the open access,
    /// or the refusal that stands for the way it was denied.
    pub fn granted<'a>(self, access: Access<'a>) -> (result: Result<
        RefMut<'a, (u64, [u8; 20]), Arc<VMRouterStorage>>,
        RouterError,
    >)
        ensures
            result == match access {
                Access::Present(guard) => Ok(guard),
                Access::Absent => Err(
                    RouterError::NotInitialized { contract_address: self.contract_address },
                ),
                Access::Locked => Err(
                    RouterError::Locked { contract_address: self.contract_address },
                ),
            },
    {
        match access {
            Access::Present(guard) => Ok(guard),
            Access::Absent => Err(
                RouterError::NotInitialized { contract_address: self.contract_address },
            ),
            Access::Locked => Err(RouterError::Locked { contract_address: self.contract_address }),
        }
    }

    /// Takes a share of the entry behind an open access, and closes the access.
    fn released<'a>(guard: RefMut<'a, (u64, [u8; 20]), Arc<VMRouterStorage>>) -> (storage: Arc<
        VMRouterStorage,
    >)
        ensures
            *storage == guarded(guard),
    {
        share(guard_value(&guard))
    }

    /// Makes what a request for access to the contract's entry comes to: a fresh handler
    /// from the factory in the entry, where the access was granted, and else the refusal
    /// that stands for the way it was denied.
    ///
    /// The access is closed before the factory is asked: the factory and the handler run
    /// with every part of the table free.
    pub fn made<'a>(self, access: Access<'a>) -> (result: Result<Handler, RouterError>)
        ensures
            match access {
                Access::Present(guard) => result matches Ok(handler) && guarded(
                    guard,
                ).router_factory.creates(handler),
                Access::Absent => result matches Err(error) && error == (
                RouterError::NotInitialized { contract_address: self.contract_address }),
                Access::Locked => result matches Err(error) && error == (RouterError::Locked {
                    contract_address: self.contract_address,
                }),
            },
    {
        match self.granted(access) {
            Ok(guard) => {
                let storage = Self::released(guard);
                Ok(storage.router_factory.create())
            },
            Err(error) => Err(error),
        }
    }

    /// Answers what a request for access to the contract's entry comes to: where the
    /// access was granted, the answer to `calldata` of a fresh handler from the factory in
    /// the entry, passed on as it is; and else the refusal that stands for the way the
    /// access was denied.
    pub fn answered<'a>(self, access: Access<'a>, calldata: Vec<u8>) -> (result: Result<
        ArbResult,
        RouterError,
    >)
        ensures
            match access {
                Access::Present(guard) => result matches Ok(answer) && dispatched(
                    guarded(guard),
                    calldata@,
                    outcome(answer),
                ),
                Access::Absent => result matches Err(error) && error == (
                RouterError::NotInitialized { contract_address: self.contract_address }),
                Access::Locked => result matches Err(error) && error == (RouterError::Locked {
                    contract_address: self.contract_address,
                }),
            },
    {
        match self.made(access) {
            Ok(mut router) => Ok(router.route(calldata)),
            Err(error) => Err(error),
        }
    }

    /// Makes a fresh handler for the contract.
    ///
    /// Nothing of the registry is held when this function returns, nor while the factory
    /// makes the handler.
    pub fn router(self, routers: &Registry) -> (result: Result<Handler, RouterError>)
        ensures
            router_admits(routers@, self, result),
    {
        self.made(self.storage(routers))
    }

    /// Routes `calldata` to the contract: takes a share of the contract's entry, lets go of
    /// the table, makes a fresh handler and hands the call to it. The handler's answer is
    /// passed on as it is, whether the call went through or failed.
    pub fn route(self, routers: &Registry, calldata: Vec<u8>) -> (result: Result<ArbResult, RouterError>)
        ensures
            route_admits(routers@, self, calldata@, routed(result)),
    {
        self.answered(self.storage(routers), calldata)
    }
}

} // verus!
