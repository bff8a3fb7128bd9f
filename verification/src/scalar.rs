//! Integers modulo the order of the Ristretto group.
//!
//! A `Scalar` holds the canonical 32-byte little-endian encoding of a value
//! below the group order; its view is that value.  The arithmetic itself is
//! done by `curve25519_dalek::scalar::Scalar`.
use vstd::prelude::*;
use crate::bytes::le_nat;
use crate::rng::try_random_bytes_64;
use rand_core::OsRng;

verus! {

/// The order of the Ristretto group and of its basepoint:
/// 2^252 + 27742317777372353535851937790883648493.
pub open spec fn group_order() -> nat {
    7237005577332262213973186563042994240857116359379907606001950938285454250989nat
}

/// A value modulo the group order, stored in canonical form.
#[derive(Clone, Copy, Debug, PartialEq, Eq)]
pub struct Scalar {
    bytes: [u8; 32],
}

impl View for Scalar {
    type V = nat;

    closed spec fn view(&self) -> nat {
        le_nat(self.bytes@)
    }
}

impl Scalar {
    #[verifier::type_invariant]
    closed spec fn is_reduced(&self) -> bool {
        le_nat(self.bytes@) < group_order()
    }

    /// Builds a scalar from bytes already known to be canonical.
    pub(crate) fn from_canonical(bytes: [u8; 32]) -> (res: Scalar)
        requires
            le_nat(bytes@) < group_order(),
        ensures
            res@ == le_nat(bytes@),
            res.to_bytes_spec() == bytes@,
    {
        Scalar { bytes }
    }

    /// The canonical encoding of this scalar.
    pub closed spec fn to_bytes_spec(&self) -> Seq<u8> {
        self.bytes@
    }

    /// Reduces a 256-bit little-endian integer modulo the group order.
    pub fn from_bytes_mod_order(bytes: [u8; 32]) -> (res: Scalar)
        ensures
            res@ == le_nat(bytes@) % group_order(),
    {
        Scalar { bytes: reduce_mod_order(bytes) }
    }

    /// Reduces a 512-bit little-endian integer modulo the group order.
    pub fn from_bytes_mod_order_wide(bytes: &[u8; 64]) -> (res: Scalar)
        ensures
            res@ == le_nat(bytes@) % group_order(),
    {
        Scalar { bytes: reduce_wide_mod_order(bytes) }
    }

    /// A scalar drawn from `rng`: sixty-four random bytes reduced modulo the
    /// group order, as `curve25519_dalek::scalar::Scalar::random` draws one;
    /// nothing when the operating system supplies no random bytes.
    pub fn random(rng: &mut OsRng) -> (res: Option<Scalar>)
        ensures
            res matches Some(s) ==> s@ < group_order() && exists|wide: Seq<u8>|
                wide.len() == 64 && s@ == le_nat(wide) % group_order(),
    {
        match try_random_bytes_64(rng) {
            Some(wide) => {
                let s = Scalar::from_bytes_mod_order_wide(&wide);
                assert(wide@.len() == 64);
                Some(s)
            },
            None => None,
        }
    }

    /// The canonical little-endian encoding of this scalar.
    pub fn to_bytes(&self) -> (res: [u8; 32])
        ensures
            res@ == self.to_bytes_spec(),
            le_nat(res@) == self@,
            self@ < group_order(),
    {
        proof {
            use_type_invariant(self);
        }
        self.bytes
    }

    /// The sum of two scalars modulo the group order.
    pub fn add(&self, other: &Scalar) -> (res: Scalar)
        ensures
            res@ == (self@ + other@) % group_order(),
    {
        Scalar { bytes: scalar_add(self, other) }
    }

    /// The product of two scalars modulo the group order.
    pub fn mul(&self, other: &Scalar) -> (res: Scalar)
        ensures
            res@ == (self@ * other@) % group_order(),
    {
        Scalar { bytes: scalar_mul(self, other) }
    }
}

/// Whether `bytes` is the canonical encoding of a scalar.
pub fn is_canonical(bytes: [u8; 32]) -> (res: bool)
    ensures
        res == (le_nat(bytes@) < group_order()),
{
    scalar_bytes_are_canonical(bytes)
}

/// `curve25519_dalek::scalar::Scalar::from_bytes_mod_order`: the encoding of
/// the 256-bit little-endian integer `bytes` reduced modulo the group order.
#[verifier::external_body]
fn reduce_mod_order(bytes: [u8; 32]) -> (res: [u8; 32])
    ensures
        le_nat(res@) == le_nat(bytes@) % group_order(),
{
    curve25519_dalek::scalar::Scalar::from_bytes_mod_order(bytes).to_bytes()
}

/// `curve25519_dalek::scalar::Scalar::from_bytes_mod_order_wide`: the encoding
/// of the 512-bit little-endian integer `bytes` reduced modulo the group order.
#[verifier::external_body]
fn reduce_wide_mod_order(bytes: &[u8; 64]) -> (res: [u8; 32])
    ensures
        le_nat(res@) == le_nat(bytes@) % group_order(),
{
    curve25519_dalek::scalar::Scalar::from_bytes_mod_order_wide(bytes).to_bytes()
}

/// `curve25519_dalek::scalar::Scalar::from_canonical_bytes`: it yields a
/// scalar exactly when `bytes` encodes an integer below the group order.
#[verifier::external_body]
fn scalar_bytes_are_canonical(bytes: [u8; 32]) -> (res: bool)
    ensures
        res == (le_nat(bytes@) < group_order()),
{
    bool::from(curve25519_dalek::scalar::Scalar::from_canonical_bytes(bytes).is_some())
}

/// `Add` on `curve25519_dalek::scalar::Scalar`: the sum modulo the group
/// order, encoded canonically.
#[verifier::external_body]
fn scalar_add(a: &Scalar, b: &Scalar) -> (res: [u8; 32])
    ensures
        le_nat(res@) == (a@ + b@) % group_order(),
{
    let x = curve25519_dalek::scalar::Scalar::from_bytes_mod_order(a.bytes);
    let y = curve25519_dalek::scalar::Scalar::from_bytes_mod_order(b.bytes);
    (x + y).to_bytes()
}

/// `Mul` on `curve25519_dalek::scalar::Scalar`: the product modulo the group
/// order, encoded canonically.
#[verifier::external_body]
fn scalar_mul(a: &Scalar, b: &Scalar) -> (res: [u8; 32])
    ensures
        le_nat(res@) == (a@ * b@) % group_order(),
{
    let x = curve25519_dalek::scalar::Scalar::from_bytes_mod_order(a.bytes);
    let y = curve25519_dalek::scalar::Scalar::from_bytes_mod_order(b.bytes);
    (x * y).to_bytes()
}

} // verus!
