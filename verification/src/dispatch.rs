//! The uniform interface through which a call reaches a contract, and the factories
//! that make the handlers behind it.

use stylus_sdk::ArbResult;
use vstd::prelude::*;

verus! {

/// What a handler's answer holds, as plain sequences: the returned bytes of a call that
/// went through, or the bytes of its failure.
pub open spec fn outcome(result: ArbResult) -> Result<Seq<u8>, Seq<u8>> {
    match result {
        Ok(returned) => Ok(returned@),
        Err(failure) => Err(failure@),
    }
}

/// A handler that routes an encoded call to the method it selects.
pub trait Router {
    /// Whether this handler may give `result` when it is handed `calldata`.
    ///
    /// The relation belongs to the handler: an implementation that says nothing
    /// admits every answer.
    open spec fn answers(&self, calldata: Seq<u8>, result: Result<Seq<u8>, Seq<u8>>) -> bool {
        true
    }

    /// Finds and runs the method that `calldata` selects, and gives its answer: the
    /// returned bytes, or the bytes of the failure.
    fn route(&mut self, calldata: Vec<u8>) -> (result: ArbResult)
        ensures
            old(self).answers(calldata@, outcome(result)),
    ;
}

/// An owned handler whose concrete type is no longer known.
pub struct Handler {
    /// The handler itself.
    pub router: Box<dyn Router>,
}

impl Router for Handler {
    /// A wrapped handler answers as the handler inside it does.
    open spec fn answers(&self, calldata: Seq<u8>, result: Result<Seq<u8>, Seq<u8>>) -> bool {
        self.router.answers(calldata, result)
    }

    fn route(&mut self, calldata: Vec<u8>) -> (result: ArbResult) {
        self.router.route(calldata)
    }
}

/// A factory of handlers, safe to keep in a table that several execution contexts share.
pub trait CreateRouter: Send + Sync {
    /// Whether `handler` is one that this factory may make.
    ///
    /// The relation belongs to the factory: an implementation that says nothing admits
    /// every handler.
    open spec fn creates(&self, handler: Handler) -> bool {
        true
    }

    /// Makes a fresh handler.
    fn create(&self) -> (handler: Handler)
        ensures
            self.creates(handler),
    ;
}

/// A factory that makes each handler by one call of a constructor.
pub struct RouterFactory<F: Fn() -> Handler> {
    constructor: F,
}

impl<F: Fn() -> Handler> RouterFactory<F> {
    #[verifier::type_invariant]
    spec fn callable(self) -> bool {
        call_requires(self.constructor, ())
    }

    /// The constructor that this factory calls.
    pub closed spec fn constructor(self) -> F {
        self.constructor
    }

    /// A factory that calls `constructor` for every handler it is asked for.
    pub fn new(constructor: F) -> (factory: Self)
        requires
            call_requires(constructor, ()),
        ensures
            factory.constructor() == constructor,
    {
        Self { constructor }
    }
}

impl<F: Fn() -> Handler + Send + Sync> CreateRouter for RouterFactory<F> {
    /// The factory makes what its constructor may return.
    open spec fn creates(&self, handler: Handler) -> bool {
        call_ensures(self.constructor(), (), handler)
    }

    fn create(&self) -> (handler: Handler) {
        proof {
            use_type_invariant(self);
        }
        (self.constructor)()
    }
}

/// What the registry keeps for one registered contract.
pub struct VMRouterStorage {
    /// The factory of the contract's handlers.
    pub router_factory: Box<dyn CreateRouter>,
}

/// Whether `result` is an answer to `calldata` of some handler that the factory kept in
/// `storage` may make.
pub open spec fn dispatched(
    storage: VMRouterStorage,
    calldata: Seq<u8>,
    result: Result<Seq<u8>, Seq<u8>>,
) -> bool {
    exists|handler: Handler| #[trigger]
        storage.router_factory.creates(handler) && handler.answers(calldata, result)
}

} // verus!
