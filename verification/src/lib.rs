//! Service-to-service request authentication with non-interactive Schnorr
//! proofs over the Ristretto group, bound to the request by Fiat–Shamir.
//!
//! The Schnorr layer (`group`, `scalar`, `fiat_shamir`, `prover`,
//! `verification`) knows nothing of HTTP; the request layer (`context`,
//! `request_proof`, `replay`, `error`) binds proofs to requests and stops
//! replays.
pub mod bytes;
pub mod context;
pub mod error;
pub mod fiat_shamir;
pub mod group;
pub mod hashing;
pub mod prover;
pub mod replay;
pub mod request_proof;
pub mod rng;
pub mod scalar;
pub mod text;
pub mod verification;

pub use context::AuthContext;
pub use error::AuthVerificationError;
pub use fiat_shamir::Transcript;
pub use group::{Commitment, PublicKey, SecretKey};
pub use prover::{
    generate_interactive_commitment, prove_non_interactive, prove_non_interactive_with_nonce,
    ProverState, SchnorrProof,
};
pub use replay::{ReplayProtector, ReplayProtectorConfig};
pub use request_proof::{
    create_auth_proof, create_auth_proof_with_nonce, current_unix_timestamp, verify_auth_proof,
    AuthProofBundle,
};
pub use scalar::Scalar;
pub use verification::{verify_interactive, verify_non_interactive, VerificationError};
