//! A rendered values buffer: the gathered raw slots of one render call,
//! with random-access decoding.

use vstd::prelude::*;

use crate::variant::{decode_ok, decode_slot, decoded_matches, DecodeError, EventVariantValue,
    RawSlot};

verus! {

/// The slots of one values-mode render, with the slot count the source
/// reported. Offers decoding of slot `i`; every decode copies into an owned
/// value.
pub struct EventVariantBuffer {
    slots: Vec<RawSlot>,
    property_count: u32,
}

impl View for EventVariantBuffer {
    type V = Seq<RawSlot>;

    closed spec fn view(&self) -> Seq<RawSlot> {
        self.slots@
    }
}

impl EventVariantBuffer {
    #[verifier::type_invariant]
    spec fn wf(self) -> bool {
        self.property_count == self.slots@.len()
    }

    /// Wrap the gathered slots of one render call. The declared slot count
    /// must equal the number of slots gathered.
    pub fn from_raw_buffer(slots: Vec<RawSlot>, property_count: u32) -> (r: Self)
        requires
            property_count == slots@.len(),
        ensures
            r@ == slots@,
    {
        Self { slots, property_count }
    }

    /// How many decodable slots the buffer holds.
    pub fn property_count(&self) -> (r: u32)
        ensures
            r == self@.len(),
    {
        proof {
            use_type_invariant(self);
        }
        self.property_count
    }

    /// Decode slot `index`. `None` exactly when the index is out of range;
    /// otherwise the slot's decode result.
    pub fn get_property_value(&self, index: u32) -> (r: Option<
        Result<EventVariantValue, DecodeError>,
    >)
        ensures
            r is None <==> index >= self@.len(),
            r matches Some(d) ==> ({
                &&& d is Ok <==> decode_ok(self@[index as int])
                &&& (d matches Ok(v) ==> decoded_matches(self@[index as int], v))
            }),
    {
        proof {
            use_type_invariant(self);
        }
        if index >= self.property_count {
            return None;
        }
        Some(decode_slot(&self.slots[index as usize]))
    }

    /// Decode every slot, in the order the source reported them. Fails on
    /// the first slot whose payload is refused.
    pub fn values(&self) -> (r: Result<Vec<EventVariantValue>, DecodeError>)
        ensures
            r is Ok ==> (forall|i: int| 0 <= i < self@.len() ==> decode_ok(#[trigger] self@[i])),
            r matches Ok(vs) ==> vs@.len() == self@.len() && (forall|i: int|
                0 <= i < self@.len() ==> decoded_matches(self@[i], #[trigger] vs@[i])),
            r is Err ==> (exists|i: int| 0 <= i < self@.len() && !decode_ok(#[trigger] self@[i])),
    {
        proof {
            use_type_invariant(self);
        }
        let mut vs: Vec<EventVariantValue> = Vec::new();
        let mut i: usize = 0;
        while i < self.slots.len()
            invariant
                i <= self@.len(),
                vs@.len() == i,
                forall|j: int| 0 <= j < i ==> decode_ok(#[trigger] self@[j]),
                forall|j: int| 0 <= j < i ==> decoded_matches(self@[j], #[trigger] vs@[j]),
                self.slots@ == self@,
            decreases self@.len() - i,
        {
            match decode_slot(&self.slots[i]) {
                Ok(v) => {
                    vs.push(v);
                },
                Err(e) => {
                    return Err(e);
                },
            }
            i = i + 1;
        }
        Ok(vs)
    }
}

} // verus!
