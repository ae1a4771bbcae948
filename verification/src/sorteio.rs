//! The two sources of chance that the engine draws from: a uniform integer
//! and a fresh identifier. Nothing here is proved; each contract states what
//! the outside function guarantees of every outcome.

use vstd::prelude::*;

verus! {

/// The bits of a version 4, RFC 4122 identifier that are not random: the
/// version nibble and the two variant bits.
pub const MASCARA_V4: u128 = 0x0000_0000_0000_F000_C000_0000_0000_0000;

/// The value of the bits under [`MASCARA_V4`]: version 4, variant `10`.
pub const MARCA_V4: u128 = 0x0000_0000_0000_4000_8000_0000_0000_0000;

/// Draws an integer with `rand::Rng::gen_range` over the inclusive range
/// `min..=max`, on the generator that `rand::thread_rng` hands out.
///
/// Trusted: the result lies in the range. `gen_range` panics on an empty
/// range, which the precondition rules out. Two calls may differ. Whatever
/// the arguments, `thread_rng` panics when the system gives it no seed.
#[verifier::external_body]
pub(crate) fn sortear_intervalo(min: i32, max: i32) -> (r: i32)
    requires
        min <= max,
    ensures
        min <= r <= max,
{
    rand::Rng::gen_range(&mut rand::thread_rng(), min..=max)
}

/// Draws one byte with `rand::Rng::gen`, on the generator that
/// `rand::thread_rng` hands out.
///
/// Trusted: nothing. Every byte is a possible outcome, and two calls may
/// differ. `thread_rng` panics when the system gives it no seed.
#[verifier::external_body]
pub(crate) fn sortear_byte() -> u8 {
    rand::Rng::gen::<u8>(&mut rand::thread_rng())
}

/// Makes an identifier with `uuid::Uuid::new_v4` and hands it out as the
/// 128-bit integer of `Uuid::as_u128`.
///
/// Trusted: the version and variant bits are those of a random (version 4)
/// identifier. The other 122 bits are random; nothing is claimed of them, in
/// particular not that two calls differ. `new_v4` panics when the system
/// gives it no random bytes.
#[verifier::external_body]
pub(crate) fn novo_id() -> (id: u128)
    ensures
        id & MASCARA_V4 == MARCA_V4,
{
    uuid::Uuid::new_v4().as_u128()
}

} // verus!
