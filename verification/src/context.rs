//! What an invocation sees of its environment: the ledger and the signatures
//! that came with it.

use vstd::prelude::*;
use crate::table::{Address, TableKey};
use crate::ttl::{spec_tracked_live_until, tracked_live_until};

verus! {

/// The ledger an invocation runs in.
#[derive(Clone, Copy, Debug, PartialEq, Eq, Structural)]
pub struct LedgerInfo {
    /// Ledger close time, in seconds.
    pub timestamp: u64,
    /// Ledger sequence number.
    pub sequence: u32,
    /// Largest TTL the network allows an entry to be extended to.
    pub max_ttl: u32,
}

/// Which addresses have signed the invocation.
#[derive(Clone, Debug)]
pub enum Authorization {
    /// Every address has authorized the invocation.
    All,
    /// Exactly these addresses have authorized the invocation.
    Only(Vec<Address>),
}

/// The environment of one contract invocation.
#[derive(Clone, Debug)]
pub struct Invocation {
    pub ledger: LedgerInfo,
    pub auth: Authorization,
}

/// Whether `address` has authorized the invocation.
pub open spec fn spec_authorizes(inv: Invocation, address: Seq<u8>) -> bool {
    match inv.auth {
        Authorization::All => true,
        Authorization::Only(signers) => exists|i: int|
            0 <= i < signers@.len() && #[trigger] signers@[i]@ == address,
    }
}

/// The ledger up to which an entry extended during this invocation is tracked.
pub open spec fn spec_live_until(inv: Invocation) -> u32 {
    spec_tracked_live_until(inv.ledger.sequence, inv.ledger.max_ttl)
}

impl Invocation {
    /// An invocation authorized by every address.
    pub fn authorized_by_all(ledger: LedgerInfo) -> (r: Invocation)
        ensures
            r.ledger == ledger,
            r.auth is All,
    {
        Invocation { ledger, auth: Authorization::All }
    }

    /// An invocation authorized by exactly `signers`.
    pub fn authorized_by(ledger: LedgerInfo, signers: Vec<Address>) -> (r: Invocation)
        ensures
            r.ledger == ledger,
            r.auth == Authorization::Only(signers),
    {
        Invocation { ledger, auth: Authorization::Only(signers) }
    }

    /// Whether `address` has authorized this invocation.
    pub fn authorizes(&self, address: &Address) -> (r: bool)
        ensures
            r == spec_authorizes(*self, address@),
    {
        match &self.auth {
            Authorization::All => true,
            Authorization::Only(signers) => {
                let n = signers.len();
                let mut i: usize = 0;
                while i < n
                    invariant
                        n == signers@.len(),
                        i <= n,
                        self.auth == Authorization::Only(*signers),
                        forall|j: int| 0 <= j < i ==> #[trigger] signers@[j]@ != address@,
                    decreases n - i,
                {
                    if signers[i].same_key(address) {
                        assert(signers@[i as int]@ == address@);
                        assert(self.auth matches Authorization::Only(v) && v@[i as int]@ == address@);
                        return true;
                    }
                    i = i + 1;
                }
                false
            },
        }
    }

    /// The ledger up to which an entry extended now is tracked.
    pub fn live_until(&self) -> (r: u32)
        ensures
            r == spec_live_until(*self),
    {
        tracked_live_until(self.ledger.sequence, self.ledger.max_ttl)
    }
}

} // verus!
