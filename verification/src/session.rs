//! Session identifiers.

use vstd::prelude::*;

verus! {

/// The bits of a UUID that hold its version and its variant.
pub const UUID_FORM_MASK: u128 = 0x0000_0000_0000_f000_c000_0000_0000_0000;

/// Those bits as a random (version 4) UUID of the standard variant has them.
pub const UUID_RANDOM_FORM: u128 = 0x0000_0000_0000_4000_8000_0000_0000_0000;

/// Whether a 128-bit value has the form of a random UUID.
pub open spec fn is_random_uuid(id: u128) -> bool {
    id & UUID_FORM_MASK == UUID_RANDOM_FORM
}

/// Draws a session identifier with `uuid::Uuid::new_v4` and hands it out as
/// the 128-bit value that `Uuid::as_u128` gives. The value is random: the
/// contract states only the version and variant bits, which `new_v4` sets on
/// every identifier it makes. Where the system yields no random bytes,
/// `new_v4` stops the program.
#[verifier::external_body]
pub(crate) fn new_session_id() -> (id: u128)
    ensures
        is_random_uuid(id),
{
    uuid::Uuid::new_v4().as_u128()
}

} // verus!
