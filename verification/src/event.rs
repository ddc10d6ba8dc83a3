//! The validated log-event record emitted during execution.
//!
//! An event is built through [`EventBuilder`]: keys and data are staged
//! unbounded, and the capacity bound is enforced once, in [`EventBuilder::build`].
//! Once built, an event is immutable.

use vstd::prelude::*;

use crate::bounded::{BoundedVec, MAX_ARRAY_SIZE};
use crate::felt::{felts_to_words, StarkContractAddress, StarkFelt};
use crate::word::{ContractAddressWrapper, sentinel_address, Word256};

verus! {

/// The ways event construction can fail.
#[derive(Clone, Copy, PartialEq, Eq, Structural, Debug)]
pub enum EventError {
    /// More keys than the capacity bound allows.
    InvalidKeys,
    /// More data elements than the capacity bound allows.
    InvalidData,
    /// The emitting address does not convert to the 32-byte ledger form.
    /// With addresses staged in the engine's own domain this conversion is
    /// total, so no input produces this error; the variant names the
    /// failure mode all the same.
    InvalidFromAddress,
}

/// A log event: bounded keys and data, and the address that emitted it.
pub struct EventWrapper {
    /// Event keys, at most [`MAX_ARRAY_SIZE`] of them.
    pub keys: BoundedVec<Word256>,
    /// Event data, at most [`MAX_ARRAY_SIZE`] elements.
    pub data: BoundedVec<Word256>,
    /// The contract the event was emitted from.
    pub from_address: ContractAddressWrapper,
}

/// Event content in the engine's own representation, as it appears in a
/// call trace: keys and data already confined to the felt domain.
pub struct EventContent {
    /// Event keys.
    pub keys: Vec<StarkFelt>,
    /// Event data.
    pub data: Vec<StarkFelt>,
}

impl EventWrapper {
    /// The event respects the capacity bounds.
    pub open spec fn wf(self) -> bool {
        self.keys.wf() && self.data.wf()
    }

    /// Creates a new instance of an event.
    ///
    /// # Arguments
    ///
    /// * `keys` - Event keys.
    /// * `data` - Event data.
    /// * `from_address` - Contract Address where the event was emitted from.
    pub fn new(
        keys: BoundedVec<Word256>,
        data: BoundedVec<Word256>,
        from_address: ContractAddressWrapper,
    ) -> (r: EventWrapper)
        ensures
            r.keys@ == keys@,
            r.data@ == data@,
            r.from_address == from_address,
    {
        EventWrapper { keys, data, from_address }
    }

    /// Creates an empty event: no keys, no data, the sentinel address.
    pub fn empty() -> (r: EventWrapper)
        ensures
            r.keys@.len() == 0,
            r.data@.len() == 0,
            r.from_address.val() == 1,
            r.wf(),
    {
        EventWrapper {
            keys: BoundedVec::empty(),
            data: BoundedVec::empty(),
            from_address: sentinel_address(),
        }
    }

    /// Creates a new instance of an event builder.
    pub fn builder() -> (r: EventBuilder)
        ensures
            r.keys@.len() == 0,
            r.data@.len() == 0,
            r.from_address is None,
    {
        EventBuilder { keys: Vec::new(), data: Vec::new(), from_address: None }
    }
}

impl Default for EventWrapper {
    /// The deterministic default event: two one-valued keys, two one-valued
    /// data elements, the sentinel address.
    fn default() -> (r: EventWrapper)
        ensures
            r.keys@.len() == 2,
            r.data@.len() == 2,
            forall|i: int| 0 <= i < 2 ==> (#[trigger] r.keys@[i]).val() == 1,
            forall|i: int| 0 <= i < 2 ==> (#[trigger] r.data@[i]).val() == 1,
            r.from_address.val() == 1,
            r.wf(),
    {
        let one = sentinel_address();
        let mut keys: Vec<Word256> = Vec::new();
        keys.push(one);
        keys.push(one);
        let mut data: Vec<Word256> = Vec::new();
        data.push(one);
        data.push(one);
        EventWrapper {
            keys: BoundedVec::from_vec(keys),
            data: BoundedVec::from_vec(data),
            from_address: one,
        }
    }
}

/// Builder pattern for `EventWrapper`: stages unbounded keys and data and an
/// optional engine-domain emitting address, then validates in [`EventBuilder::build`].
pub struct EventBuilder {
    /// Staged keys, not yet bounded.
    pub keys: Vec<Word256>,
    /// Staged data, not yet bounded.
    pub data: Vec<Word256>,
    /// The emitting address, if one was supplied.
    pub from_address: Option<StarkContractAddress>,
}

impl Default for EventBuilder {
    /// A fresh, all-empty builder.
    fn default() -> (r: EventBuilder)
        ensures
            r.keys@.len() == 0,
            r.data@.len() == 0,
            r.from_address is None,
    {
        EventBuilder { keys: Vec::new(), data: Vec::new(), from_address: None }
    }
}

impl EventBuilder {
    /// Sets the keys of the event.
    ///
    /// # Arguments
    ///
    /// * `keys` - Event keys.
    pub fn with_keys(self, keys: Vec<Word256>) -> (r: EventBuilder)
        ensures
            r.keys@ == keys@,
            r.data@ == self.data@,
            r.from_address == self.from_address,
    {
        EventBuilder { keys, data: self.data, from_address: self.from_address }
    }

    /// Sets the data of the event.
    ///
    /// # Arguments
    ///
    /// * `data` - Event data.
    pub fn with_data(self, data: Vec<Word256>) -> (r: EventBuilder)
        ensures
            r.keys@ == self.keys@,
            r.data@ == data@,
            r.from_address == self.from_address,
    {
        EventBuilder { keys: self.keys, data, from_address: self.from_address }
    }

    /// Sets the from address of the event.
    ///
    /// # Arguments
    ///
    /// * `from_address` - Contract Address where the event was emitted from.
    pub fn with_from_address(self, from_address: StarkContractAddress) -> (r: EventBuilder)
        ensures
            r.keys@ == self.keys@,
            r.data@ == self.data@,
            r.from_address == Some(from_address),
    {
        EventBuilder { keys: self.keys, data: self.data, from_address: Some(from_address) }
    }

    /// Sets keys and data from an event content: a lossless re-encoding of
    /// each engine-domain element into the raw 256-bit form, same values in
    /// the same order.
    ///
    /// # Arguments
    ///
    /// * `event_content` - Event content retrieved from a call trace.
    pub fn with_event_content(self, event_content: EventContent) -> (r: EventBuilder)
        ensures
            r.keys@.len() == event_content.keys@.len(),
            forall|i: int| 0 <= i < event_content.keys@.len() ==> (#[trigger] r.keys@[i])
                == event_content.keys@[i].value,
            r.data@.len() == event_content.data@.len(),
            forall|i: int| 0 <= i < event_content.data@.len() ==> (#[trigger] r.data@[i])
                == event_content.data@[i].value,
            r.from_address == self.from_address,
    {
        EventBuilder {
            keys: felts_to_words(&event_content.keys),
            data: felts_to_words(&event_content.data),
            from_address: self.from_address,
        }
    }

    /// Builds the event.
    ///
    /// Fails with `InvalidKeys` when the staged keys exceed the capacity
    /// bound, else with `InvalidData` when the staged data do; otherwise
    /// succeeds, keeping keys and data exactly as staged.  An absent
    /// emitting address defaults to the sentinel one-bit address.
    pub fn build(self) -> (r: Result<EventWrapper, EventError>)
        ensures
            r is Ok <==> self.keys@.len() <= MAX_ARRAY_SIZE && self.data@.len()
                <= MAX_ARRAY_SIZE,
            r is Ok ==> r->Ok_0.keys@ == self.keys@ && r->Ok_0.data@ == self.data@
                && r->Ok_0.wf(),
            r is Ok ==> r->Ok_0.from_address == (match self.from_address {
                Some(a) => a.value.value,
                None => crate::word::spec_sentinel_address(),
            }),
            self.keys@.len() > MAX_ARRAY_SIZE ==> r == Result::<
                EventWrapper,
                EventError,
            >::Err(EventError::InvalidKeys),
            self.keys@.len() <= MAX_ARRAY_SIZE && self.data@.len() > MAX_ARRAY_SIZE ==> r
                == Result::<EventWrapper, EventError>::Err(EventError::InvalidData),
    {
        let keys = match BoundedVec::try_from_vec(self.keys) {
            Ok(k) => k,
            Err(_) => {
                return Err(EventError::InvalidKeys);
            },
        };
        let data = match BoundedVec::try_from_vec(self.data) {
            Ok(d) => d,
            Err(_) => {
                return Err(EventError::InvalidData);
            },
        };
        let from_address = match self.from_address {
            Some(a) => a.value.value,
            None => sentinel_address(),
        };
        Ok(EventWrapper { keys, data, from_address })
    }
}

} // verus!
