//! The prover side of the Schnorr protocol: commit to a random nonce, answer
//! the challenge, and the non-interactive proof that combines both.
use vstd::prelude::*;
use crate::bytes::le_nat;
use crate::fiat_shamir::Transcript;
use crate::group::{
    Commitment, PublicKey, SecretKey, ristretto_basepoint_mul, ristretto_decodes, secret_scalar,
};
use crate::scalar::{Scalar, group_order};
use rand_core::OsRng;

verus! {

/// A Schnorr proof: the commitment `R` and the response `z`.
#[derive(Clone, Debug, PartialEq, Eq)]
pub struct SchnorrProof {
    pub commitment: Commitment,
    pub response: [u8; 32],
}

/// Whether `response` answers `challenge` for the key `public_key` and the
/// commitment `commitment` as an honest prover does: both are multiples of
/// the basepoint, by `x` and `r`, and the response encodes `r + challenge * x`
/// modulo the group order.
pub open spec fn is_honest_response(
    public_key: Seq<u8>,
    commitment: Seq<u8>,
    challenge: nat,
    response: Seq<u8>,
) -> bool {
    exists|x: nat, r: nat|
        #![trigger ristretto_basepoint_mul(x), ristretto_basepoint_mul(r)]
        x < group_order() && r < group_order() && public_key == ristretto_basepoint_mul(x)
            && commitment == ristretto_basepoint_mul(r) && le_nat(response) == (r + challenge * x)
            % group_order()
}

/// The prover between commitment and response: its nonce `r` and `R = r * G`.
#[derive(Clone, Debug)]
pub struct ProverState {
    nonce: Scalar,
    commitment: Commitment,
}

impl ProverState {
    /// The secret nonce.
    pub closed spec fn spec_nonce(&self) -> nat {
        self.nonce@
    }

    /// The commitment to the nonce.
    pub closed spec fn spec_commitment(&self) -> Commitment {
        self.commitment
    }

    /// The commitment `R` to send to the verifier.
    pub fn commitment(&self) -> (res: &Commitment)
        ensures
            *res == self.spec_commitment(),
    {
        &self.commitment
    }

    /// The proof answering `challenge`: the commitment and `z = r + c * x`.
    pub fn respond(self, secret_key: &SecretKey, challenge: Scalar) -> (res: SchnorrProof)
        ensures
            res.commitment == self.spec_commitment(),
            le_nat(res.response@) == (self.spec_nonce() + challenge@ * secret_scalar(*secret_key))
                % group_order(),
    {
        let x = secret_key.scalar();
        let cx = challenge.mul(&x);
        let z = self.nonce.add(&cx);
        proof {
            vstd::arithmetic::div_mod::lemma_add_mod_noop_right(
                self.nonce@ as int,
                (challenge@ * x@) as int,
                group_order() as int,
            );
        }
        SchnorrProof { commitment: self.commitment, response: z.to_bytes() }
    }
}

/// Whether `response` is the response of the secret scalar `x` with the
/// nonce `r` to `challenge`: the commitment is `r * G` and the response
/// encodes `r + challenge * x` modulo the group order.
pub open spec fn is_response_of(
    commitment: Seq<u8>,
    challenge: nat,
    response: Seq<u8>,
    x: nat,
    r: nat,
) -> bool {
    &&& r < group_order()
    &&& commitment == ristretto_basepoint_mul(r)
    &&& le_nat(response) == (r + challenge * x) % group_order()
}

impl ProverState {
    /// The prover that committed to the nonce `nonce`: `R = nonce * G`.
    pub fn from_nonce(nonce: Scalar) -> (res: ProverState)
        ensures
            res.spec_nonce() == nonce@,
            res.spec_nonce() < group_order(),
            res.spec_commitment()@ == ristretto_basepoint_mul(nonce@),
            ristretto_decodes(res.spec_commitment()@),
    {
        let _ = nonce.to_bytes();
        let commitment = Commitment::from_scalar(&nonce);
        ProverState { nonce, commitment }
    }
}

/// Draws a nonce `r` from `rng` and commits to it with `R = r * G`; nothing
/// when the operating system supplies no random bytes.
pub fn generate_interactive_commitment(rng: &mut OsRng) -> (res: Option<ProverState>)
    ensures
        res matches Some(state) ==> {
            &&& state.spec_nonce() < group_order()
            &&& state.spec_commitment()@ == ristretto_basepoint_mul(state.spec_nonce())
            &&& ristretto_decodes(state.spec_commitment()@)
        },
{
    match Scalar::random(rng) {
        Some(nonce) => Some(ProverState::from_nonce(nonce)),
        None => None,
    }
}

/// The non-interactive proof of knowledge of `secret_key` bound to
/// `transcript`, made with the nonce `nonce`: the public key `x * G`, the
/// commitment `nonce * G`, and the response `nonce + c * x` for the
/// transcript's challenge `c` on that key and commitment.
pub fn prove_non_interactive_with_nonce(
    nonce: Scalar,
    secret_key: &SecretKey,
    transcript: &Transcript,
) -> (res: (PublicKey, SchnorrProof))
    ensures
        res.0@ == ristretto_basepoint_mul(secret_scalar(*secret_key)),
        is_response_of(
            res.1.commitment@,
            transcript.spec_challenge(res.0@, res.1.commitment@),
            res.1.response@,
            secret_scalar(*secret_key),
            nonce@,
        ),
        is_honest_response(
            res.0@,
            res.1.commitment@,
            transcript.spec_challenge(res.0@, res.1.commitment@),
            res.1.response@,
        ),
{
    let public_key = secret_key.public_key();
    let state = ProverState::from_nonce(nonce);
    let challenge = transcript.challenge_scalar(&public_key, state.commitment());
    let proof = state.respond(secret_key, challenge);
    proof {
        let x = secret_scalar(*secret_key);
        assert(x < group_order());
        assert(proof.commitment@ == ristretto_basepoint_mul(nonce@));
    }
    (public_key, proof)
}

/// A non-interactive proof of knowledge of `secret_key` bound to
/// `transcript`, with a nonce drawn from `rng`: the public key, and a proof
/// whose response is that of the key's own scalar with some nonce to the
/// transcript's challenge; nothing when the operating system supplies no
/// random bytes.
pub fn prove_non_interactive(rng: &mut OsRng, secret_key: &SecretKey, transcript: &Transcript) -> (res:
    Option<(PublicKey, SchnorrProof)>)
    ensures
        res matches Some(p) ==> {
            &&& p.0@ == ristretto_basepoint_mul(secret_scalar(*secret_key))
            &&& exists|r: nat|
                is_response_of(
                    p.1.commitment@,
                    transcript.spec_challenge(p.0@, p.1.commitment@),
                    p.1.response@,
                    secret_scalar(*secret_key),
                    r,
                )
            &&& is_honest_response(
                p.0@,
                p.1.commitment@,
                transcript.spec_challenge(p.0@, p.1.commitment@),
                p.1.response@,
            )
        },
{
    match Scalar::random(rng) {
        Some(nonce) => {
            let p = prove_non_interactive_with_nonce(nonce, secret_key, transcript);
            Some(p)
        },
        None => None,
    }
}

} // verus!
