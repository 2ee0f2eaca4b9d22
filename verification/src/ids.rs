//! Opaque 32-byte account identifiers.
//!
//! The core never inspects an account address; it only carries one
//! through (which oracle account a market reads, which maker account a
//! fulfillment step matches). The address is held as two 128-bit words.

use vstd::prelude::*;

verus! {

/// A 32-byte account address, carried but never interpreted.
#[derive(Clone, Copy, Debug, PartialEq, Eq, Structural)]
pub struct AccountKey {
    pub hi: u128,
    pub lo: u128,
}

impl Default for AccountKey {
    fn default() -> (r: Self)
        ensures
            r.hi == 0,
            r.lo == 0,
    {
        AccountKey { hi: 0, lo: 0 }
    }
}

} // verus!
