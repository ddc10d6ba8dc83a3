//! The execution engine's native value types: field elements, contract
//! addresses, fees, and the field-validation error raised when a raw
//! 256-bit value does not fit the engine's domain.

use vstd::prelude::*;

use crate::word::{addr_in_range, all_felts, addr_check, felt_check, felt_in_range, Word256};

verus! {

/// The field-validation error: a raw 256-bit value does not fit the
/// engine's native domain.
#[derive(Clone, Copy, PartialEq, Eq, Structural, Debug)]
pub enum StarknetApiError {
    /// The value is at or above the bound of the target domain.
    OutOfRange,
}

/// A value in the engine's field-element domain.
#[derive(Clone, Copy, PartialEq, Eq, Structural, Debug)]
pub struct StarkFelt {
    /// The underlying word; always below the Stark prime.
    pub value: Word256,
}

impl StarkFelt {
    /// The field element is well formed: its word is in the felt domain.
    pub open spec fn wf(self) -> bool {
        felt_in_range(self.value)
    }

    /// Converts a raw word into a field element; fails exactly when the
    /// word is outside the felt domain.
    pub fn new(value: Word256) -> (r: Result<StarkFelt, StarknetApiError>)
        ensures
            r is Ok <==> felt_in_range(value),
            r is Ok ==> r->Ok_0.value == value && r->Ok_0.wf(),
            r is Err ==> r->Err_0 == StarknetApiError::OutOfRange,
    {
        if felt_check(&value) {
            Ok(StarkFelt { value })
        } else {
            Err(StarknetApiError::OutOfRange)
        }
    }

    /// The zero field element.
    pub fn zero() -> (r: StarkFelt)
        ensures
            r.value.val() == 0,
            r.wf(),
    {
        StarkFelt { value: Word256::zero() }
    }
}

/// A value in the engine's contract-address domain.
#[derive(Clone, Copy, PartialEq, Eq, Structural, Debug)]
pub struct StarkContractAddress {
    /// The underlying field element; its word is always below `2^251`.
    pub value: StarkFelt,
}

impl StarkContractAddress {
    /// The address is well formed: its word is in the address domain.
    pub open spec fn wf(self) -> bool {
        addr_in_range(self.value.value)
    }

    /// Narrows a field element to a contract address; fails exactly when
    /// the element is outside the address domain.
    pub fn new(value: StarkFelt) -> (r: Result<StarkContractAddress, StarknetApiError>)
        ensures
            r is Ok <==> addr_in_range(value.value),
            r is Ok ==> r->Ok_0.value == value && r->Ok_0.wf(),
            r is Err ==> r->Err_0 == StarknetApiError::OutOfRange,
    {
        if addr_check(&value.value) {
            Ok(StarkContractAddress { value })
        } else {
            Err(StarknetApiError::OutOfRange)
        }
    }
}

/// A transaction fee in the engine's representation.
#[derive(Clone, Copy, PartialEq, Eq, Structural, Debug)]
pub struct Fee(pub u128);

/// Copies a sequence of field elements, value for value.
pub fn clone_felts(v: &Vec<StarkFelt>) -> (r: Vec<StarkFelt>)
    ensures
        r@ == v@,
{
    let mut out: Vec<StarkFelt> = Vec::new();
    let mut i: usize = 0;
    while i < v.len()
        invariant
            0 <= i <= v@.len(),
            out@.len() == i,
            forall|j: int| 0 <= j < i ==> (#[trigger] out@[j]) == v@[j],
        decreases v@.len() - i,
    {
        out.push(v[i]);
        i = i + 1;
    }
    proof {
        assert(out@ =~= v@);
    }
    out
}

/// Re-encodes each field element of a sequence as a raw word: a total,
/// lossless conversion, same values in the same order.
pub fn felts_to_words(src: &Vec<StarkFelt>) -> (r: Vec<Word256>)
    ensures
        r@.len() == src@.len(),
        forall|i: int| 0 <= i < src@.len() ==> (#[trigger] r@[i]) == src@[i].value,
{
    let mut out: Vec<Word256> = Vec::new();
    let mut i: usize = 0;
    while i < src.len()
        invariant
            0 <= i <= src@.len(),
            out@.len() == i,
            forall|j: int| 0 <= j < i ==> (#[trigger] out@[j]) == src@[j].value,
        decreases src@.len() - i,
    {
        out.push(src[i].value);
        i = i + 1;
    }
    out
}

/// Converts each word of a sequence into a field element; fails exactly
/// when some word is outside the felt domain.
pub fn words_to_felts(src: &Vec<Word256>) -> (r: Result<Vec<StarkFelt>, StarknetApiError>)
    ensures
        r is Ok <==> all_felts(src@),
        r is Ok ==> r->Ok_0@.len() == src@.len() && forall|i: int|
            0 <= i < src@.len() ==> (#[trigger] r->Ok_0@[i]).value == src@[i],
        r is Err ==> r->Err_0 == StarknetApiError::OutOfRange,
{
    let mut out: Vec<StarkFelt> = Vec::new();
    let mut i: usize = 0;
    while i < src.len()
        invariant
            0 <= i <= src@.len(),
            out@.len() == i,
            forall|j: int| 0 <= j < i ==> (#[trigger] out@[j]).value == src@[j],
            forall|j: int| 0 <= j < i ==> felt_in_range(#[trigger] src@[j]),
        decreases src@.len() - i,
    {
        let w = src[i];
        match StarkFelt::new(w) {
            Ok(f) => {
                out.push(f);
            },
            Err(e) => {
                return Err(e);
            },
        }
        i = i + 1;
    }
    Ok(out)
}

} // verus!
