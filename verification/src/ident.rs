//! Identifiers of todo items: the 128-bit values of random (version 4) UUIDs.

use vstd::prelude::*;

verus! {

/// The bits of a UUID's 128-bit value that hold its version and its variant.
pub const LAYOUT_MASK: u128 = 0x0000_0000_0000_F000_C000_0000_0000_0000;

/// What those bits hold in a random (version 4) UUID of the standard variant.
pub const RANDOM_LAYOUT: u128 = 0x0000_0000_0000_4000_8000_0000_0000_0000;

/// Whether `id` has the layout of a random UUID: version 4, standard variant.
pub open spec fn is_random_id(id: u128) -> bool {
    id & LAYOUT_MASK == RANDOM_LAYOUT
}

/// An identifier with the layout of a random UUID is never the nil
/// identifier.
pub proof fn lemma_random_id_is_not_nil(id: u128)
    requires
        is_random_id(id),
    ensures
        id != 0,
{
    assert(id & 0x0000_0000_0000_F000_C000_0000_0000_0000u128
        == 0x0000_0000_0000_4000_8000_0000_0000_0000u128 ==> id != 0) by (bit_vector);
}

/// Draws a new random identifier.
///
/// Trusted: the body calls `uuid::Uuid::new_v4` and reads the result with
/// `Uuid::as_u128`. The contract claims only what `new_v4` fixes in every
/// outcome: it overwrites the version bits with 4 and the variant bits with
/// binary 10 and leaves the other 122 bits to the random source. Nothing is
/// claimed about those bits, nor that two draws differ. `new_v4` panics if
/// the operating system cannot supply random bytes.
#[verifier::external_body]
pub(crate) fn fresh_id() -> (id: u128)
    ensures
        is_random_id(id),
{
    uuid::Uuid::new_v4().as_u128()
}

} // verus!
