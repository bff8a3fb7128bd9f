//! The Ristretto group, its elements held by their canonical 32-byte
//! encodings, and the key types of the scheme.
//!
//! The group arithmetic is done by `curve25519_dalek`.  Its results are named
//! by the uninterpreted functions below; the trusted items state, besides the
//! name, the group facts that the proofs of this crate need.
use vstd::prelude::*;
use crate::bytes::{le_nat, bytes32_eq};
use crate::scalar::{Scalar, group_order};
use curve25519_dalek::ristretto::{CompressedRistretto, RistrettoPoint};
use rand_core::OsRng;

verus! {

/// Whether `encoding` is the canonical encoding of a group element.
pub uninterp spec fn ristretto_decodes(encoding: Seq<u8>) -> bool;

/// The encoding of `scalar` times the Ristretto basepoint.
pub uninterp spec fn ristretto_basepoint_mul(scalar: nat) -> Seq<u8>;

/// The encoding of `scalar` times the element that `encoding` encodes.
pub uninterp spec fn ristretto_mul(scalar: nat, encoding: Seq<u8>) -> Seq<u8>;

/// The encoding of the sum of the elements that `left` and `right` encode.
pub uninterp spec fn ristretto_add(left: Seq<u8>, right: Seq<u8>) -> Seq<u8>;

/// `CompressedRistretto::decompress`: whether `encoding` decodes to a group
/// element.  Also stated: the encoding of a multiple of the basepoint, as
/// `compress` produces it, always decodes.
#[verifier::external_body]
fn decodes(encoding: &[u8; 32]) -> (res: bool)
    ensures
        res == ristretto_decodes(encoding@),
        forall|x: nat|
            #![trigger ristretto_basepoint_mul(x)]
            x < group_order() && encoding@ == ristretto_basepoint_mul(x) ==> res,
{
    CompressedRistretto(*encoding).decompress().is_some()
}

/// `RistrettoPoint::mul_base` followed by `compress`: the encoding of
/// `scalar` times the basepoint, which decodes again.
#[verifier::external_body]
fn basepoint_mul(scalar: &Scalar) -> (res: [u8; 32])
    ensures
        res@ == ristretto_basepoint_mul(scalar@),
        ristretto_decodes(res@),
{
    let s = curve25519_dalek::scalar::Scalar::from_bytes_mod_order(scalar.to_bytes());
    RistrettoPoint::mul_base(&s).compress().to_bytes()
}

/// `Mul<&RistrettoPoint> for &Scalar` on the decoded element, then
/// `compress`.  Also stated: multiplying `x` times the basepoint by `scalar`
/// gives `scalar * x` (modulo the group order) times the basepoint.
#[verifier::external_body]
fn point_mul(scalar: &Scalar, encoding: &[u8; 32]) -> (res: [u8; 32])
    requires
        ristretto_decodes(encoding@),
    ensures
        res@ == ristretto_mul(scalar@, encoding@),
        ristretto_decodes(res@),
        forall|x: nat|
            #![trigger ristretto_basepoint_mul(x)]
            x < group_order() && encoding@ == ristretto_basepoint_mul(x) ==> res@
                == ristretto_basepoint_mul((scalar@ * x) % group_order()),
{
    let point = CompressedRistretto(*encoding).decompress().unwrap();
    let s = curve25519_dalek::scalar::Scalar::from_bytes_mod_order(scalar.to_bytes());
    (&s * &point).compress().to_bytes()
}

/// `Add` on the two decoded elements, then `compress`.  Also stated: the sum
/// of `x` and `y` times the basepoint is `x + y` (modulo the group order)
/// times the basepoint.
#[verifier::external_body]
fn point_add(left: &[u8; 32], right: &[u8; 32]) -> (res: [u8; 32])
    requires
        ristretto_decodes(left@),
        ristretto_decodes(right@),
    ensures
        res@ == ristretto_add(left@, right@),
        ristretto_decodes(res@),
        forall|x: nat, y: nat|
            #![trigger ristretto_basepoint_mul(x), ristretto_basepoint_mul(y)]
            x < group_order() && y < group_order() && left@ == ristretto_basepoint_mul(x)
                && right@ == ristretto_basepoint_mul(y) ==> res@ == ristretto_basepoint_mul(
                (x + y) % group_order(),
            ),
{
    let a = CompressedRistretto(*left).decompress().unwrap();
    let b = CompressedRistretto(*right).decompress().unwrap();
    (&a + &b).compress().to_bytes()
}

/// A secret key: 32 bytes whose value modulo the group order is the
/// discrete logarithm of the public key.
#[derive(Clone, Debug, PartialEq, Eq)]
pub struct SecretKey([u8; 32]);

/// A public key: the encoding of the secret scalar times the basepoint.
#[derive(Clone, Debug, PartialEq, Eq)]
pub struct PublicKey([u8; 32]);

/// The prover's commitment: the encoding of its nonce times the basepoint.
#[derive(Clone, Debug, PartialEq, Eq)]
pub struct Commitment([u8; 32]);

impl View for SecretKey {
    type V = Seq<u8>;

    closed spec fn view(&self) -> Seq<u8> {
        self.0@
    }
}

impl View for PublicKey {
    type V = Seq<u8>;

    closed spec fn view(&self) -> Seq<u8> {
        self.0@
    }
}

impl View for Commitment {
    type V = Seq<u8>;

    closed spec fn view(&self) -> Seq<u8> {
        self.0@
    }
}

/// The scalar that a secret key stands for.
pub open spec fn secret_scalar(key: SecretKey) -> nat {
    le_nat(key@) % group_order()
}

impl SecretKey {
    /// A secret key drawn from `rng`, its bytes the canonical encoding of a
    /// random scalar; nothing when the operating system supplies no random
    /// bytes.
    pub fn random(rng: &mut OsRng) -> (res: Option<SecretKey>)
        ensures
            res matches Some(key) ==> le_nat(key@) < group_order() && key@.len() == 32,
    {
        match Scalar::random(rng) {
            Some(s) => Some(SecretKey(s.to_bytes())),
            None => None,
        }
    }

    /// The public key `x * G` of this secret key's scalar `x`.
    pub fn public_key(&self) -> (res: PublicKey)
        ensures
            res@ == ristretto_basepoint_mul(secret_scalar(*self)),
            ristretto_decodes(res@),
    {
        let x = self.scalar();
        PublicKey::from_encoding(basepoint_mul(&x))
    }

    /// The secret key whose scalar is `bytes` reduced modulo the group order;
    /// its bytes are that scalar's canonical encoding.
    pub fn from_bytes(bytes: [u8; 32]) -> (res: SecretKey)
        ensures
            le_nat(res@) == le_nat(bytes@) % group_order(),
            res@.len() == 32,
    {
        let s = Scalar::from_bytes_mod_order(bytes);
        SecretKey(s.to_bytes())
    }

    /// A secret key holding `bytes` as they are, unreduced.
    pub fn from_raw_bytes(bytes: [u8; 32]) -> (res: SecretKey)
        ensures
            res@ == bytes@,
    {
        SecretKey(bytes)
    }

    /// The bytes this key holds.
    pub fn to_bytes(&self) -> (res: [u8; 32])
        ensures
            res@ == self@,
    {
        self.0
    }

    /// This key's scalar.
    pub(crate) fn scalar(&self) -> (res: Scalar)
        ensures
            res@ == secret_scalar(*self),
    {
        Scalar::from_bytes_mod_order(self.0)
    }
}

impl PublicKey {
    /// The public key with the given encoding.
    pub fn from_encoding(bytes: [u8; 32]) -> (res: PublicKey)
        ensures
            res@ == bytes@,
    {
        PublicKey(bytes)
    }

    /// The encoding of this public key.
    pub fn as_bytes(&self) -> (res: &[u8; 32])
        ensures
            res@ == self@,
    {
        &self.0
    }

    /// Whether this key and `other` hold the same encoding.
    pub fn same_as(&self, other: &PublicKey) -> (res: bool)
        ensures
            res == (self@ == other@),
    {
        bytes32_eq(&self.0, &other.0)
    }

    /// Whether this key decodes to a group element.
    pub(crate) fn is_valid_point(&self) -> (res: bool)
        ensures
            res == ristretto_decodes(self@),
            forall|x: nat|
                #![trigger ristretto_basepoint_mul(x)]
                x < group_order() && self@ == ristretto_basepoint_mul(x) ==> res,
    {
        decodes(&self.0)
    }
}

impl Commitment {
    /// The commitment with the given encoding.
    pub fn from_encoding(bytes: [u8; 32]) -> (res: Commitment)
        ensures
            res@ == bytes@,
    {
        Commitment(bytes)
    }

    /// The commitment `r * G` of the scalar `r`.
    pub(crate) fn from_scalar(r: &Scalar) -> (res: Commitment)
        ensures
            res@ == ristretto_basepoint_mul(r@),
            ristretto_decodes(res@),
    {
        Commitment(basepoint_mul(r))
    }

    /// The encoding of this commitment.
    pub fn as_bytes(&self) -> (res: &[u8; 32])
        ensures
            res@ == self@,
    {
        &self.0
    }

    /// Whether this commitment decodes to a group element.
    pub(crate) fn is_valid_point(&self) -> (res: bool)
        ensures
            res == ristretto_decodes(self@),
            forall|x: nat|
                #![trigger ristretto_basepoint_mul(x)]
                x < group_order() && self@ == ristretto_basepoint_mul(x) ==> res,
    {
        decodes(&self.0)
    }
}

/// Checks the Schnorr equation `z * G == R + c * Y` for the public key `Y`,
/// the commitment `R`, the challenge `c` and the response scalar `z`, by
/// comparing the encodings of the two sides.
pub(crate) fn schnorr_equation_holds(
    public_key: &PublicKey,
    commitment: &Commitment,
    challenge: &Scalar,
    response: &Scalar,
) -> (res: bool)
    requires
        ristretto_decodes(public_key@),
        ristretto_decodes(commitment@),
    ensures
        res == (ristretto_basepoint_mul(response@) == ristretto_add(
            commitment@,
            ristretto_mul(challenge@, public_key@),
        )),
        forall|x: nat, r: nat|
            #![trigger ristretto_basepoint_mul(x), ristretto_basepoint_mul(r)]
            x < group_order() && r < group_order() && public_key@ == ristretto_basepoint_mul(x)
                && commitment@ == ristretto_basepoint_mul(r) && response@ == (r + challenge@ * x)
                % group_order() ==> res,
{
    let left = basepoint_mul(response);
    let scaled = point_mul(challenge, &public_key.0);
    let right = point_add(&commitment.0, &scaled);
    let res = bytes32_eq(&left, &right);
    assert forall|x: nat, r: nat|
        #![trigger ristretto_basepoint_mul(x), ristretto_basepoint_mul(r)]
        x < group_order() && r < group_order() && public_key@ == ristretto_basepoint_mul(x)
            && commitment@ == ristretto_basepoint_mul(r) && response@ == (r + challenge@ * x)
            % group_order() implies res by {
        let cx = (challenge@ * x) % group_order();
        assert(scaled@ == ristretto_basepoint_mul(cx));
        assert(cx < group_order());
        assert(right@ == ristretto_basepoint_mul((r + cx) % group_order()));
        vstd::arithmetic::div_mod::lemma_add_mod_noop_right(
            r as int,
            (challenge@ * x) as int,
            group_order() as int,
        );
        assert((r + cx) % group_order() == (r + challenge@ * x) % group_order());
    }
    res
}

} // verus!
