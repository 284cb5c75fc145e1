//! Fresh message identities.

use crate::message::Uuid;
use vstd::prelude::*;

verus! {

/// Relies on `up_rust::UUID::build`: a new version 7 UUID (millisecond clock
/// in the upper 48 bits, random bits elsewhere) whose version nibble is `0111`
/// and whose variant bits are `10`. It panics only when the system clock reads
/// a time before the UNIX epoch or too far in the future to count in `u64`
/// milliseconds.
#[verifier::external_body]
pub(crate) fn generate_message_id() -> (r: Uuid)
    ensures
        r.is_uprotocol_uuid(),
{
    let id = up_rust::UUID::build();
    Uuid { msb: id.msb, lsb: id.lsb }
}

} // verus!
