use vstd::prelude::*;

verus! {

/// A 32-byte account identity (a public key), compared by value.
#[derive(Clone, Copy, Debug)]
pub struct Key {
    pub bytes: [u8; 32],
}

impl Key {
    pub fn new(bytes: [u8; 32]) -> (r: Key)
        ensures
            r.bytes == bytes,
    {
        Key { bytes }
    }
}

impl PartialEq for Key {
    fn eq(&self, o: &Key) -> (r: bool) {
        let mut i: usize = 0;
        while i < 32
            invariant
                i <= 32,
                forall|j: int| 0 <= j < i ==> self.bytes@[j] == o.bytes@[j],
            decreases 32 - i,
        {
            if self.bytes[i] != o.bytes[i] {
                return false;
            }
            i = i + 1;
        }
        assert(self.bytes@ =~= o.bytes@);
        assert(self.bytes =~= o.bytes);
        true
    }
}

impl vstd::std_specs::cmp::PartialEqSpecImpl for Key {
    open spec fn obeys_eq_spec() -> bool {
        true
    }

    open spec fn eq_spec(&self, o: &Key) -> bool {
        *self == *o
    }
}

impl Eq for Key {
}

/// Lifecycle states of an escrow record.
#[derive(Clone, Copy, Debug, PartialEq, Eq, Structural)]
pub enum EscrowState {
    /// Written, not yet funded.
    Created,
    /// Funded, awaiting release or refund.
    Funded,
    /// Custody released to the seller.
    Released,
    /// Custody returned to the buyer.
    Refunded,
    /// Closed before it was funded.
    Cancelled,
}

/// One escrow between a buyer and a seller.
#[derive(Clone, Copy, Debug)]
pub struct Escrow {
    /// The depositing party.
    pub buyer: Key,
    /// The receiving party.
    pub seller: Key,
    /// The neutral third party, if any; never equal to the buyer.
    pub arbiter: Option<Key>,
    /// The deposit agreed at creation, in the ledger's smallest unit.
    pub amount: u64,
    /// Clock reading, in seconds, when the record was created.
    pub created_at: i64,
    /// Seconds after creation at which the seller may release alone.
    pub timeout_period: i64,
    /// Where the record stands in its lifecycle.
    pub state: EscrowState,
    /// Token that re-derives the custody account's address.
    pub bump: u8,
}

impl Escrow {
    /// Bytes that a stored record occupies, after its 8-byte discriminator.
    pub const LEN: usize = 32 + 32 + 33 + 8 + 8 + 8 + 1 + 1;

    /// What holds of every record from creation on.
    pub open spec fn wf(&self) -> bool {
        &&& self.amount > 0
        &&& self.timeout_period > 0
        &&& self.arbiter != Some(self.buyer)
    }
}

} // verus!
