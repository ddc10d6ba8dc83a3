//! 256-bit words and the execution engine's native value ranges.
//!
//! Every numeric field of the transaction record (version, hash, nonce,
//! signature elements, event keys and data, addresses) is a raw 256-bit
//! value.  The engine's native field elements occupy a strictly smaller
//! domain: a felt is a value below the Stark prime
//! `2^251 + 17 * 2^192 + 1`, and a contract address is further confined
//! below `2^251`.  Conversions into that domain are fallible and are checked
//! here, limb by limb.

use vstd::prelude::*;

verus! {

/// A 256-bit unsigned value, stored as four 64-bit limbs, most significant
/// first: the value is `w0 * 2^192 + w1 * 2^128 + w2 * 2^64 + w3`.
#[derive(Clone, Copy, PartialEq, Eq, Structural, Debug)]
pub struct Word256 {
    /// Bits 192..=255.
    pub w0: u64,
    /// Bits 128..=191.
    pub w1: u64,
    /// Bits 64..=127.
    pub w2: u64,
    /// Bits 0..=63.
    pub w3: u64,
}

impl Word256 {
    /// The numeric value of the word.
    pub open spec fn val(self) -> nat {
        (self.w0 as nat) * 0x1000000000000000000000000000000000000000000000000nat
            + (self.w1 as nat) * 0x100000000000000000000000000000000nat
            + (self.w2 as nat) * 0x10000000000000000nat
            + (self.w3 as nat)
    }

    /// The word whose value is `n`.
    pub fn from_u64(n: u64) -> (r: Word256)
        ensures
            r.val() == n as nat,
    {
        Word256 { w0: 0, w1: 0, w2: 0, w3: n }
    }

    /// The zero word.
    pub fn zero() -> (r: Word256)
        ensures
            r.val() == 0,
    {
        Word256 { w0: 0, w1: 0, w2: 0, w3: 0 }
    }
}

/// The Stark prime `2^251 + 17 * 2^192 + 1`, the upper bound (exclusive) of
/// the engine's field-element domain.
pub open spec fn felt_modulus() -> nat {
    0x800000000000011000000000000000000000000000000000000000000000001nat
}

/// The upper bound (exclusive) of the engine's contract-address domain,
/// `2^251`.
pub open spec fn address_bound() -> nat {
    0x800000000000000000000000000000000000000000000000000000000000000nat
}

/// Whether a word fits the engine's field-element domain.
pub open spec fn felt_in_range(w: Word256) -> bool {
    w.val() < felt_modulus()
}

/// Whether a word fits the engine's contract-address domain.
pub open spec fn addr_in_range(w: Word256) -> bool {
    w.val() < address_bound()
}

/// Every element of the sequence fits the field-element domain.
pub open spec fn all_felts(s: Seq<Word256>) -> bool {
    forall|i: int| 0 <= i < s.len() ==> felt_in_range(#[trigger] s[i])
}

/// Decides membership in the field-element domain.  The prime is
/// `0x0800000000000011 * 2^192 + 1`, so the comparison reduces to the
/// leading limb, with equality forcing the three lower limbs to zero.
pub fn felt_check(w: &Word256) -> (b: bool)
    ensures
        b == felt_in_range(*w),
{
    w.w0 < 0x0800000000000011
        || (w.w0 == 0x0800000000000011 && w.w1 == 0 && w.w2 == 0 && w.w3 == 0)
}

/// Decides membership in the contract-address domain.  The bound is
/// `0x0800000000000000 * 2^192`, so only the leading limb matters.
pub fn addr_check(w: &Word256) -> (b: bool)
    ensures
        b == addr_in_range(*w),
{
    w.w0 < 0x0800000000000000
}

/// The 32-byte ledger representation of a contract address: a raw 256-bit
/// word, validated against the engine's address domain only on conversion.
pub type ContractAddressWrapper = Word256;

/// The sentinel one-bit address, substituted where no address was supplied.
/// It exists only to give default construction paths a deterministic value;
/// it is not a meaningful address.
pub open spec fn spec_sentinel_address() -> Word256 {
    Word256 { w0: 0, w1: 0, w2: 0, w3: 1 }
}

/// The sentinel one-bit address.
pub fn sentinel_address() -> (r: Word256)
    ensures
        r == spec_sentinel_address(),
        r.val() == 1,
        addr_in_range(r),
{
    Word256 { w0: 0, w1: 0, w2: 0, w3: 1 }
}

/// A valid contract address is in particular a valid field element.
pub proof fn lemma_addr_implies_felt(w: Word256)
    ensures
        addr_in_range(w) ==> felt_in_range(w),
{
}

} // verus!
