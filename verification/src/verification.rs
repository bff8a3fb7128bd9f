//! The verifier side of the Schnorr protocol.
use vstd::prelude::*;
use crate::bytes::le_nat;
use crate::fiat_shamir::Transcript;
use crate::group::{
    Commitment, PublicKey, ristretto_add, ristretto_basepoint_mul, ristretto_decodes,
    ristretto_mul, schnorr_equation_holds,
};
use crate::prover::{SchnorrProof, is_honest_response};
use crate::scalar::{Scalar, group_order, is_canonical};

verus! {

/// Why a Schnorr proof was rejected.
#[derive(Clone, Copy, Debug, PartialEq, Eq)]
pub enum VerificationError {
    InvalidPublicKey,
    InvalidCommitment,
    InvalidResponse,
    InvalidProof,
}

impl VerificationError {
    /// The text that describes this error.
    pub fn message(&self) -> (res: String)
        ensures
            res@ == verification_error_text(*self),
    {
        match self {
            VerificationError::InvalidPublicKey => {
                "public key is not a valid Ristretto point".to_owned()
            },
            VerificationError::InvalidCommitment => {
                "commitment is not a valid Ristretto point".to_owned()
            },
            VerificationError::InvalidResponse => {
                "proof response is not a canonical scalar".to_owned()
            },
            VerificationError::InvalidProof => "Schnorr equation does not hold".to_owned(),
        }
    }
}

/// The text of each verification error.
pub open spec fn verification_error_text(e: VerificationError) -> Seq<char> {
    match e {
        VerificationError::InvalidPublicKey => "public key is not a valid Ristretto point"@,
        VerificationError::InvalidCommitment => "commitment is not a valid Ristretto point"@,
        VerificationError::InvalidResponse => "proof response is not a canonical scalar"@,
        VerificationError::InvalidProof => "Schnorr equation does not hold"@,
    }
}

/// The outcome of checking a response: the public key must decode, then the
/// commitment, then the response must be a canonical scalar `z`, and finally
/// `z * G` must equal `R + c * Y`.
pub open spec fn verify_outcome(
    public_key: Seq<u8>,
    commitment: Seq<u8>,
    challenge: nat,
    response: Seq<u8>,
) -> Result<(), VerificationError> {
    if !ristretto_decodes(public_key) {
        Err(VerificationError::InvalidPublicKey)
    } else if !ristretto_decodes(commitment) {
        Err(VerificationError::InvalidCommitment)
    } else if !(le_nat(response) < group_order()) {
        Err(VerificationError::InvalidResponse)
    } else if ristretto_basepoint_mul(le_nat(response)) == ristretto_add(
        commitment,
        ristretto_mul(challenge, public_key),
    ) {
        Ok(())
    } else {
        Err(VerificationError::InvalidProof)
    }
}

/// Checks a response to the challenge `challenge` for `public_key` and
/// `commitment`.  An honest response is always accepted.
pub fn verify_interactive(
    public_key: &PublicKey,
    commitment: &Commitment,
    challenge: Scalar,
    response: [u8; 32],
) -> (res: Result<(), VerificationError>)
    ensures
        res == verify_outcome(public_key@, commitment@, challenge@, response@),
        is_honest_response(public_key@, commitment@, challenge@, response@) ==> res is Ok,
{
    let pk_ok = public_key.is_valid_point();
    let commitment_ok = commitment.is_valid_point();
    proof {
        if is_honest_response(public_key@, commitment@, challenge@, response@) {
            let (x, r) = choose|x: nat, r: nat|
                #![trigger ristretto_basepoint_mul(x), ristretto_basepoint_mul(r)]
                x < group_order() && r < group_order() && public_key@ == ristretto_basepoint_mul(
                    x,
                ) && commitment@ == ristretto_basepoint_mul(r) && le_nat(response@) == (r
                    + challenge@ * x) % group_order();
            assert(pk_ok);
            assert(commitment_ok);
        }
    }
    if !pk_ok {
        return Err(VerificationError::InvalidPublicKey);
    }
    if !commitment_ok {
        return Err(VerificationError::InvalidCommitment);
    }
    if !is_canonical(response) {
        return Err(VerificationError::InvalidResponse);
    }
    let z = Scalar::from_canonical(response);
    if schnorr_equation_holds(public_key, commitment, &challenge, &z) {
        Ok(())
    } else {
        Err(VerificationError::InvalidProof)
    }
}

/// Checks a non-interactive proof against `public_key`, with the challenge
/// that `transcript` yields for the key and the proof's commitment.  A proof
/// made by `prove_non_interactive` with the same transcript is accepted.
pub fn verify_non_interactive(
    public_key: &PublicKey,
    proof: &SchnorrProof,
    transcript: &Transcript,
) -> (res: Result<(), VerificationError>)
    ensures
        res == verify_outcome(
            public_key@,
            proof.commitment@,
            transcript.spec_challenge(public_key@, proof.commitment@),
            proof.response@,
        ),
        is_honest_response(
            public_key@,
            proof.commitment@,
            transcript.spec_challenge(public_key@, proof.commitment@),
            proof.response@,
        ) ==> res is Ok,
{
    let challenge = transcript.challenge_scalar(public_key, &proof.commitment);
    verify_interactive(public_key, &proof.commitment, challenge, proof.response)
}

/// What a verdict on a Schnorr response means, for every input: it is
/// accepted only when the key and commitment decode, the response is a
/// canonical scalar `z`, and `z * G` equals `R + c * Y`; a well-formed
/// response for which that equation fails is rejected as an invalid proof;
/// and each malformed part is reported as such, the key before the
/// commitment before the response.
pub proof fn lemma_verdict_meaning(
    public_key: Seq<u8>,
    commitment: Seq<u8>,
    challenge: nat,
    response: Seq<u8>,
)
    ensures
        verify_outcome(public_key, commitment, challenge, response) is Ok ==> {
            &&& ristretto_decodes(public_key)
            &&& ristretto_decodes(commitment)
            &&& le_nat(response) < group_order()
            &&& ristretto_basepoint_mul(le_nat(response)) == ristretto_add(
                commitment,
                ristretto_mul(challenge, public_key),
            )
        },
        ristretto_decodes(public_key) && ristretto_decodes(commitment) && le_nat(response)
            < group_order() && ristretto_basepoint_mul(le_nat(response)) != ristretto_add(
            commitment,
            ristretto_mul(challenge, public_key),
        ) ==> verify_outcome(public_key, commitment, challenge, response) == Err::<
            (),
            VerificationError,
        >(VerificationError::InvalidProof),
        ristretto_decodes(public_key) && ristretto_decodes(commitment) && le_nat(response)
            < group_order() && ristretto_basepoint_mul(le_nat(response)) == ristretto_add(
            commitment,
            ristretto_mul(challenge, public_key),
        ) ==> verify_outcome(public_key, commitment, challenge, response) is Ok,
        !ristretto_decodes(public_key) ==> verify_outcome(public_key, commitment, challenge, response)
            == Err::<(), VerificationError>(VerificationError::InvalidPublicKey),
        ristretto_decodes(public_key) && !ristretto_decodes(commitment) ==> verify_outcome(
            public_key,
            commitment,
            challenge,
            response,
        ) == Err::<(), VerificationError>(VerificationError::InvalidCommitment),
        ristretto_decodes(public_key) && ristretto_decodes(commitment) && le_nat(response)
            >= group_order() ==> verify_outcome(public_key, commitment, challenge, response)
            == Err::<(), VerificationError>(VerificationError::InvalidResponse),
{
}

} // verus!
