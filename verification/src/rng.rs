//! The operating system's random number generator, as `rand_core` provides it.
use vstd::prelude::*;
use rand_core::OsRng;
use rand_core::RngCore;

verus! {

/// `rand_core::OsRng`, the generator that keys and nonces are drawn from.
#[verifier::external_type_specification]
#[verifier::external_body]
pub struct ExOsRng(OsRng);

/// `rand_core::RngCore::try_fill_bytes` on `OsRng` into sixteen bytes: the
/// bytes, or nothing when the operating system could not supply them.
/// Nothing is stated of their values.
#[verifier::external_body]
pub(crate) fn try_random_bytes_16(rng: &mut OsRng) -> (res: Option<[u8; 16]>) {
    let mut bytes = [0u8; 16];
    match rng.try_fill_bytes(&mut bytes) {
        Ok(()) => Some(bytes),
        Err(_) => None,
    }
}

/// `rand_core::RngCore::try_fill_bytes` on `OsRng` into sixty-four bytes:
/// the bytes, or nothing when the operating system could not supply them.
/// Nothing is stated of their values.
#[verifier::external_body]
pub(crate) fn try_random_bytes_64(rng: &mut OsRng) -> (res: Option<[u8; 64]>) {
    let mut bytes = [0u8; 64];
    match rng.try_fill_bytes(&mut bytes) {
        Ok(()) => Some(bytes),
        Err(_) => None,
    }
}

} // verus!
