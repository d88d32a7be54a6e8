//! What a slot does with a message from the signal it is connected to: read
//! the packet, run the value through the slot's filters, and take it as the
//! slot's new value when they let it through.
use crate::filter::{option_view, process, spec_passes, FilterError, FilterVariant, SameValue};
use crate::ipc::codec::{Deserialize, DeserializeError, TypeIdentifier};
use crate::ipc::packet::{spec_deserialize_packet, DeserializePacket, Header};
use vstd::prelude::*;

verus! {

/// What became of a value that arrived.
#[derive(Clone, Copy, Debug, PartialEq, Eq, Structural)]
pub enum Delivery {
    /// The value passed the filters and is the slot's value now.
    Taken,
    /// A filter held the value back; the slot's value stays.
    Held(FilterError),
}

/// Handles the message `bytes` for a slot whose last value is `last`.
/// A message that is no packet of type `V` is refused with the reason and
/// leaves `last` as it was. Otherwise the value is run through `filters`:
/// when they pass it, it becomes the last value (`Taken`); when one holds it
/// back, `last` stays (`Held`).
pub fn receive<V: Deserialize + TypeIdentifier + SameValue>(
    filters: &Vec<FilterVariant>,
    bytes: &[u8],
    last: &mut Option<V>,
) -> (r: Result<Delivery, DeserializeError>)
    ensures
        match spec_deserialize_packet::<V>(bytes@) {
            Err(e) => r == Err::<Delivery, DeserializeError>(e) && *final(last) == *old(last),
            Ok((_, w)) => if spec_passes(filters@.len(), w, option_view(*old(last))) {
                &&& r == Ok::<Delivery, DeserializeError>(Delivery::Taken)
                &&& *final(last) matches Some(v) && v@ == w
            } else {
                &&& r == Ok::<Delivery, DeserializeError>(Delivery::Held(FilterError::SameAsLastValue))
                &&& *final(last) == *old(last)
            },
        },
{
    let packet = match DeserializePacket::<V>::deserialize(bytes) {
        Ok(p) => p,
        Err(e) => {
            return Err(e);
        },
    };
    let outcome = match last {
        Some(o) => process(filters, packet.value, Some(&*o)),
        None => process(filters, packet.value, None),
    };
    match outcome {
        Ok(v) => {
            *last = Some(v);
            Ok(Delivery::Taken)
        },
        Err(e) => Ok(Delivery::Held(e)),
    }
}

} // verus!
