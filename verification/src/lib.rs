//! Verified client library for a constant-product bonding-curve market:
//! deterministic account derivation, curve-state decoding, quote math with
//! slippage bounds, and byte-exact trade instruction construction.
//!
//! Network transport stays outside this crate: callers fetch account data and
//! submit signed transactions themselves, and hand this library plain bytes.

use vstd::prelude::*;

pub mod constants;
pub mod curve;
pub mod instructions;
pub mod quote;
pub mod client;

verus! {

/// A 32-byte on-chain account address, the library's own plain-value form.
#[derive(Clone, Copy, Debug, PartialEq, Eq)]
pub struct Address {
    pub bytes: [u8; 32],
}

impl View for Address {
    type V = Seq<u8>;

    open spec fn view(&self) -> Seq<u8> {
        self.bytes@
    }
}

/// Byte-wise equality of two addresses.
pub fn address_eq(a: &Address, b: &Address) -> (r: bool)
    ensures
        r == (a@ == b@),
{
    let mut i: usize = 0;
    while i < 32
        invariant
            i <= 32,
            forall|j: int| 0 <= j < i ==> a.bytes@[j] == b.bytes@[j],
        decreases 32 - i,
    {
        if a.bytes[i] != b.bytes[i] {
            assert(a@ != b@);
            return false;
        }
        i += 1;
    }
    assert(a@ =~= b@);
    true
}

/// The closed set of failures a caller can branch on: which stage of the
/// pipeline failed, and deterministically so.
#[derive(Clone, Copy, Debug, PartialEq, Eq, Structural)]
pub enum PumpFunError {
    /// The account bytes do not match the curve account's fixed layout.
    DecodeError,
    /// The chain holds no data at the requested address.
    AccountNotFoundError,
    /// The curve is complete: permanently retired, no further trade is valid.
    CurveCompleteError,
    /// The transport reported a failure while fetching or submitting.
    RpcError,
    /// The metadata service answered with a non-success status.
    HttpError,
    /// An out-of-range slippage or a non-positive amount reached the library.
    InvalidInputError,
}

} // verus!
