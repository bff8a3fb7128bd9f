//! Why an authenticated request was rejected.
use vstd::prelude::*;
use crate::verification::{VerificationError, verification_error_text};

verus! {

/// The reasons `verify_auth_proof` rejects a request.
#[derive(Clone, Copy, Debug, PartialEq, Eq)]
pub enum AuthVerificationError {
    RequestContextMismatch,
    ExpiredTimestamp,
    ReplayDetected,
    PublicKeyMismatch,
    InvalidProof(VerificationError),
}

impl From<VerificationError> for AuthVerificationError {
    fn from(e: VerificationError) -> (res: AuthVerificationError) {
        AuthVerificationError::InvalidProof(e)
    }
}

impl vstd::std_specs::convert::FromSpecImpl<VerificationError> for AuthVerificationError {
    open spec fn obeys_from_spec() -> bool {
        true
    }

    open spec fn from_spec(e: VerificationError) -> AuthVerificationError {
        AuthVerificationError::InvalidProof(e)
    }
}

/// The text of each error; a rejected proof adds the Schnorr error's text.
pub open spec fn auth_error_text(e: AuthVerificationError) -> Seq<char> {
    match e {
        AuthVerificationError::RequestContextMismatch => {
            "proof was not created for the expected HTTP request"@
        },
        AuthVerificationError::ExpiredTimestamp => {
            "proof timestamp is outside the accepted clock-skew window"@
        },
        AuthVerificationError::ReplayDetected => "nonce was already used"@,
        AuthVerificationError::PublicKeyMismatch => {
            "public key in proof does not match expected service identity"@
        },
        AuthVerificationError::InvalidProof(inner) => "invalid Schnorr proof: "@
            + verification_error_text(inner),
    }
}

impl AuthVerificationError {
    /// The text that describes this error.
    pub fn message(&self) -> (res: String)
        ensures
            res@ == auth_error_text(*self),
    {
        match self {
            AuthVerificationError::RequestContextMismatch => {
                "proof was not created for the expected HTTP request".to_owned()
            },
            AuthVerificationError::ExpiredTimestamp => {
                "proof timestamp is outside the accepted clock-skew window".to_owned()
            },
            AuthVerificationError::ReplayDetected => "nonce was already used".to_owned(),
            AuthVerificationError::PublicKeyMismatch => {
                "public key in proof does not match expected service identity".to_owned()
            },
            AuthVerificationError::InvalidProof(inner) => {
                let head: String = "invalid Schnorr proof: ".to_owned();
                let tail = inner.message();
                head.concat(tail.as_str())
            },
        }
    }
}

} // verus!
