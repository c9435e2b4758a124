//! The identity under which a simulated contract is registered.

use vstd::prelude::*;

verus! {

/// Number of bytes in a contract address.
pub const ADDRESS_LEN: usize = 20;

/// The mathematical form of an identity: the execution context and the bytes of the address.
pub type RouterId = (u64, Seq<u8>);

/// Identity of one simulated contract: the execution context that runs it and the
/// address the contract answers to.
///
/// Any pair is a valid identity. Two identities are the same exactly when both parts
/// match, so contracts of different contexts never share an identity, whatever their
/// addresses.
#[derive(Clone, Copy, Debug, Hash)]
pub struct VMRouter {
    /// The execution context, one per concurrently running test.
    pub thread_id: u64,
    /// The address of the contract inside that context.
    pub contract_address: [u8; 20],
}

impl View for VMRouter {
    type V = RouterId;

    open spec fn view(&self) -> RouterId {
        (self.thread_id, self.contract_address@)
    }
}

impl VMRouter {
    /// Creates the identity of the contract at `contract_address` run by `thread`.
    pub fn new(thread: u64, contract_address: [u8; 20]) -> (key: Self)
        ensures
            key.thread_id == thread,
            key.contract_address == contract_address,
            key@ == (thread, contract_address@),
    {
        Self { thread_id: thread, contract_address }
    }

    /// The pair of plain values that stands for this identity in a table of routers.
    pub fn parts(self) -> (parts: (u64, [u8; 20]))
        ensures
            parts.0 == self.thread_id,
            parts.1 == self.contract_address,
            (parts.0, parts.1@) == self@,
    {
        (self.thread_id, self.contract_address)
    }

    /// An identity is determined by its mathematical form: equal forms, equal identities.
    pub proof fn lemma_view_injective(self, other: Self)
        ensures
            (self@ == other@) <==> (self == other),
    {
        if self@ == other@ {
            vstd::array::axiom_array_ext_equal(self.contract_address, other.contract_address);
            assert(self.contract_address =~= other.contract_address);
        }
    }
}

impl PartialEq for VMRouter {
    /// Compares the execution contexts and the addresses byte by byte.
    fn eq(&self, other: &Self) -> (equal: bool) {
        let mut equal: bool = self.thread_id == other.thread_id;
        let mut i: usize = 0;
        while i < ADDRESS_LEN
            invariant
                i <= ADDRESS_LEN,
                equal == (self.thread_id == other.thread_id && forall|j: int|
                    0 <= j < i ==> self.contract_address[j] == other.contract_address[j]),
            decreases ADDRESS_LEN - i,
        {
            if self.contract_address[i] != other.contract_address[i] {
                equal = false;
            }
            i += 1;
        }
        proof {
            vstd::array::axiom_array_ext_equal(self.contract_address, other.contract_address);
            assert(equal == (self.thread_id == other.thread_id && self.contract_address
                =~= other.contract_address));
        }
        equal
    }
}

impl Eq for VMRouter {

}

impl vstd::std_specs::cmp::PartialEqSpecImpl for VMRouter {
    open spec fn obeys_eq_spec() -> bool {
        true
    }

    open spec fn eq_spec(&self, other: &Self) -> bool {
        self.thread_id == other.thread_id && self.contract_address == other.contract_address
    }
}

} // verus!
