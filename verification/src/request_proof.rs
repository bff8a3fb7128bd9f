//! Proofs bound to HTTP requests: creating them, and checking one against
//! the request that arrived, the expected key and the replay store.
use vstd::prelude::*;
use crate::context::{AuthContext, body_digest_text, context_label, context_messages, sha256_hex};
use crate::error::AuthVerificationError;
use crate::fiat_shamir::challenge_value;
use crate::group::{
    PublicKey, SecretKey, ristretto_add, ristretto_basepoint_mul, ristretto_decodes, ristretto_mul,
    secret_scalar,
};
use crate::prover::{
    SchnorrProof, is_honest_response, is_response_of, prove_non_interactive_with_nonce,
};
use crate::scalar::Scalar;
use crate::replay::{
    ReplayProtector, lemma_replay_detected, replay_check, stores_nonce, time_distance,
};
use crate::text::{hex_lower, string_eq_str, to_uppercase, unicode_uppercase};
use crate::hashing::sha256_digest;
use crate::bytes::le_nat;
use crate::verification::{
    VerificationError, lemma_verdict_meaning, verify_non_interactive, verify_outcome,
};
use crate::scalar::group_order;
use rand_core::OsRng;

verus! {

/// What a calling service sends along with its request: its public key, the
/// request context and the proof bound to it.
#[derive(Clone, Debug, PartialEq, Eq)]
pub struct AuthProofBundle {
    pub public_key: PublicKey,
    pub context: AuthContext,
    pub proof: SchnorrProof,
}

/// The challenge of a bundle's proof: the one its context's transcript
/// yields for the bundle's key and the proof's commitment.
pub open spec fn bundle_challenge(bundle: AuthProofBundle) -> nat {
    challenge_value(
        context_label(),
        context_messages(bundle.context),
        bundle.public_key@,
        bundle.proof.commitment@,
    )
}

/// Whether a context describes the request that arrived: same audience,
/// same method once upper-cased, same path and same body digest.
pub open spec fn request_matches(
    context: AuthContext,
    audience: Seq<char>,
    method: Seq<char>,
    path: Seq<char>,
    body: Seq<u8>,
) -> bool {
    &&& context.audience@ == audience
    &&& context.method@ == unicode_uppercase(method)
    &&& context.path@ == path
    &&& context.body_sha256@ == body_digest_text(body)
}

/// The replay store after checking a bundle, and the result: the key first,
/// then the request, then the timestamp and nonce, then the proof.  Only the
/// timestamp-and-nonce step changes the store, and it does so even when the
/// proof turns out invalid.
pub open spec fn auth_outcome(
    bundle: AuthProofBundle,
    expected_public_key: Seq<u8>,
    audience: Seq<char>,
    method: Seq<char>,
    path: Seq<char>,
    body: Seq<u8>,
    now: u64,
    protector: ReplayProtector,
) -> (Map<Seq<char>, u64>, Result<(), AuthVerificationError>) {
    let used = protector.spec_used();
    if bundle.public_key@ != expected_public_key {
        (used, Err(AuthVerificationError::PublicKeyMismatch))
    } else if !request_matches(bundle.context, audience, method, path, body) {
        (used, Err(AuthVerificationError::RequestContextMismatch))
    } else {
        let (after, outcome) = replay_check(protector.spec_config(), used, bundle.context, now);
        match outcome {
            Err(e) => (after, Err(e)),
            Ok(_) => match verify_outcome(
                bundle.public_key@,
                bundle.proof.commitment@,
                bundle_challenge(bundle),
                bundle.proof.response@,
            ) {
                Ok(_) => (after, Ok(())),
                Err(e) => (after, Err(AuthVerificationError::InvalidProof(e))),
            },
        }
    }
}

/// Whether a bundle passes every check before the proof: the key, the
/// request, the timestamp window and the nonce.
pub open spec fn passes_request_checks(
    bundle: AuthProofBundle,
    expected_public_key: Seq<u8>,
    audience: Seq<char>,
    method: Seq<char>,
    path: Seq<char>,
    body: Seq<u8>,
    now: u64,
    protector: ReplayProtector,
) -> bool {
    &&& bundle.public_key@ == expected_public_key
    &&& request_matches(bundle.context, audience, method, path, body)
    &&& replay_check(protector.spec_config(), protector.spec_used(), bundle.context, now).1 is Ok
}

/// A bundle that was accepted is rejected as a replay when it is presented
/// again to the same store, for the same request, at any time still inside
/// its timestamp window and before its nonce expires.
pub proof fn lemma_accepted_bundle_not_replayable(
    bundle: AuthProofBundle,
    expected_public_key: Seq<u8>,
    audience: Seq<char>,
    method: Seq<char>,
    path: Seq<char>,
    body: Seq<u8>,
    now: u64,
    later: u64,
    protector: ReplayProtector,
    next: ReplayProtector,
)
    requires
        auth_outcome(bundle, expected_public_key, audience, method, path, body, now, protector).1
            is Ok,
        now + protector.spec_config().nonce_ttl_secs <= u64::MAX,
        next.spec_config() == protector.spec_config(),
        next.spec_used() == auth_outcome(
            bundle,
            expected_public_key,
            audience,
            method,
            path,
            body,
            now,
            protector,
        ).0,
        time_distance(later, bundle.context.timestamp_unix_secs)
            <= protector.spec_config().max_clock_skew_secs,
        later < now + protector.spec_config().nonce_ttl_secs,
    ensures
        auth_outcome(bundle, expected_public_key, audience, method, path, body, later, next).1
            == Err::<(), AuthVerificationError>(AuthVerificationError::ReplayDetected),
{
    let config = protector.spec_config();
    let used = protector.spec_used();
    assert(replay_check(config, used, bundle.context, now).1 is Ok);
    lemma_replay_detected(config, used, bundle.context, now, bundle.context, later);
}

/// The request's method is matched through upper-casing: checking a bundle
/// with the method or with the method already upper-cased gives the same
/// result and the same store, for every method whose upper-casing is
/// unchanged by upper-casing it again.
pub proof fn lemma_method_matched_case_insensitively(
    bundle: AuthProofBundle,
    expected_public_key: Seq<u8>,
    audience: Seq<char>,
    method: Seq<char>,
    path: Seq<char>,
    body: Seq<u8>,
    now: u64,
    protector: ReplayProtector,
)
    requires
        unicode_uppercase(unicode_uppercase(method)) == unicode_uppercase(method),
    ensures
        auth_outcome(bundle, expected_public_key, audience, method, path, body, now, protector)
            == auth_outcome(
            bundle,
            expected_public_key,
            audience,
            unicode_uppercase(method),
            path,
            body,
            now,
            protector,
        ),
{
}

/// Proves knowledge of `secret_key` bound to `context`, with the nonce
/// `nonce`.  The bundle carries the context, the key's public key, the
/// commitment `nonce * G` and the response `nonce + c * x` of the key's own
/// scalar `x` to the bundle's challenge `c`.
pub fn create_auth_proof_with_nonce(
    nonce: Scalar,
    secret_key: &SecretKey,
    context: AuthContext,
) -> (res: AuthProofBundle)
    ensures
        res.context == context,
        res.public_key@ == ristretto_basepoint_mul(secret_scalar(*secret_key)),
        is_response_of(
            res.proof.commitment@,
            bundle_challenge(res),
            res.proof.response@,
            secret_scalar(*secret_key),
            nonce@,
        ),
        is_honest_response(
            res.public_key@,
            res.proof.commitment@,
            bundle_challenge(res),
            res.proof.response@,
        ),
{
    let transcript = context.transcript();
    let (public_key, proof) = prove_non_interactive_with_nonce(nonce, secret_key, &transcript);
    AuthProofBundle { public_key, context, proof }
}

/// Proves knowledge of `secret_key` bound to `context`, with a nonce drawn
/// from `rng`: as `create_auth_proof_with_nonce` does for some nonce; nothing
/// when the operating system supplies no random bytes.
pub fn create_auth_proof(rng: &mut OsRng, secret_key: &SecretKey, context: AuthContext) -> (res:
    Option<AuthProofBundle>)
    ensures
        res matches Some(bundle) ==> {
            &&& bundle.context == context
            &&& bundle.public_key@ == ristretto_basepoint_mul(secret_scalar(*secret_key))
            &&& exists|r: nat|
                is_response_of(
                    bundle.proof.commitment@,
                    bundle_challenge(bundle),
                    bundle.proof.response@,
                    secret_scalar(*secret_key),
                    r,
                )
            &&& is_honest_response(
                bundle.public_key@,
                bundle.proof.commitment@,
                bundle_challenge(bundle),
                bundle.proof.response@,
            )
        },
{
    match Scalar::random(rng) {
        Some(nonce) => Some(create_auth_proof_with_nonce(nonce, secret_key, context)),
        None => None,
    }
}

/// Checks a bundle against the expected key and the request that arrived,
/// then its timestamp and nonce (remembering the nonce), then its proof.  A
/// bundle with an honest proof that passes the other checks is accepted.
pub fn verify_auth_proof(
    bundle: &AuthProofBundle,
    expected_public_key: &PublicKey,
    expected_audience: &str,
    method: &str,
    path: &str,
    body: &[u8],
    now_unix_secs: u64,
    replay_protector: &mut ReplayProtector,
) -> (res: Result<(), AuthVerificationError>)
    requires
        stores_nonce(
            old(replay_protector).spec_config(),
            old(replay_protector).spec_used(),
            bundle.context,
            now_unix_secs,
        ) ==> now_unix_secs + old(replay_protector).spec_config().nonce_ttl_secs <= u64::MAX,
    ensures
        final(replay_protector).spec_config() == old(replay_protector).spec_config(),
        (final(replay_protector).spec_used(), res) == auth_outcome(
            *bundle,
            expected_public_key@,
            expected_audience@,
            method@,
            path@,
            body@,
            now_unix_secs,
            *old(replay_protector),
        ),
        passes_request_checks(
            *bundle,
            expected_public_key@,
            expected_audience@,
            method@,
            path@,
            body@,
            now_unix_secs,
            *old(replay_protector),
        ) && is_honest_response(
            bundle.public_key@,
            bundle.proof.commitment@,
            bundle_challenge(*bundle),
            bundle.proof.response@,
        ) ==> res is Ok,
{
    if !bundle.public_key.same_as(expected_public_key) {
        return Err(AuthVerificationError::PublicKeyMismatch);
    }
    let context = &bundle.context;
    let matches = string_eq_str(&context.audience, expected_audience) && context.method
        == to_uppercase(method) && string_eq_str(&context.path, path) && context.body_sha256
        == sha256_hex(body);
    if !matches {
        return Err(AuthVerificationError::RequestContextMismatch);
    }
    match replay_protector.verify_and_store(context, now_unix_secs) {
        Ok(()) => {},
        Err(e) => {
            return Err(e);
        },
    }
    let transcript = context.transcript();
    match verify_non_interactive(&bundle.public_key, &bundle.proof, &transcript) {
        Ok(()) => Ok(()),
        Err(e) => Err(AuthVerificationError::from(e)),
    }
}

/// `SystemTime::now` measured from the Unix epoch, in whole seconds, or
/// nothing when the clock reads earlier than the epoch.  Nothing is stated of
/// the value, which depends on the clock.
#[verifier::external_body]
fn seconds_since_unix_epoch() -> (res: Option<u64>) {
    std::time::SystemTime::now().duration_since(std::time::UNIX_EPOCH).ok().map(|d| d.as_secs())
}

/// The timestamp for a clock reading: the seconds since the Unix epoch, or
/// zero when the clock read earlier than the epoch.
pub fn unix_seconds_or_zero(reading: Option<u64>) -> (res: u64)
    ensures
        res == match reading {
            Some(secs) => secs,
            None => 0u64,
        },
{
    match reading {
        Some(secs) => secs,
        None => 0,
    }
}

/// The current Unix time in seconds, or zero when the clock reads earlier
/// than the epoch.  Nothing is stated of the value, which depends on the clock.
pub fn current_unix_timestamp() -> (res: u64) {
    unix_seconds_or_zero(seconds_since_unix_epoch())
}

/// A bundle is checked against the expected key first: with another key it is
/// rejected as such and the store is untouched, whatever else it holds.
pub proof fn lemma_key_mismatch_rejected(
    bundle: AuthProofBundle,
    expected_public_key: Seq<u8>,
    audience: Seq<char>,
    method: Seq<char>,
    path: Seq<char>,
    body: Seq<u8>,
    now: u64,
    protector: ReplayProtector,
)
    requires
        bundle.public_key@ != expected_public_key,
    ensures
        auth_outcome(bundle, expected_public_key, audience, method, path, body, now, protector)
            == (
            protector.spec_used(),
            Err::<(), AuthVerificationError>(AuthVerificationError::PublicKeyMismatch),
        ),
{
}

/// With the expected key, a bundle whose context differs from the request
/// that arrived (another audience, another method once upper-cased, another
/// path, or a body digest that is not the lower-case hexadecimal SHA-256 of
/// the body, for every body, empty or not) is rejected as a context mismatch
/// and the store is untouched.
pub proof fn lemma_context_mismatch_rejected(
    bundle: AuthProofBundle,
    expected_public_key: Seq<u8>,
    audience: Seq<char>,
    method: Seq<char>,
    path: Seq<char>,
    body: Seq<u8>,
    now: u64,
    protector: ReplayProtector,
)
    requires
        bundle.public_key@ == expected_public_key,
        bundle.context.audience@ != audience || bundle.context.method@ != unicode_uppercase(method)
            || bundle.context.path@ != path || bundle.context.body_sha256@ != hex_lower(
            sha256_digest(body),
        ),
    ensures
        auth_outcome(bundle, expected_public_key, audience, method, path, body, now, protector)
            == (
            protector.spec_used(),
            Err::<(), AuthVerificationError>(AuthVerificationError::RequestContextMismatch),
        ),
{
}

/// A bundle is accepted only when everything matches: the expected key, the
/// audience, the upper-cased method, the path and the SHA-256 digest of the
/// body; its timestamp and nonce pass the replay check; and its proof holds
/// for the challenge of its own context, with `z * G == R + c * Y`.
pub proof fn lemma_accepted_bundle_matches(
    bundle: AuthProofBundle,
    expected_public_key: Seq<u8>,
    audience: Seq<char>,
    method: Seq<char>,
    path: Seq<char>,
    body: Seq<u8>,
    now: u64,
    protector: ReplayProtector,
)
    requires
        auth_outcome(bundle, expected_public_key, audience, method, path, body, now, protector).1
            is Ok,
    ensures
        bundle.public_key@ == expected_public_key,
        bundle.context.audience@ == audience,
        bundle.context.method@ == unicode_uppercase(method),
        bundle.context.path@ == path,
        bundle.context.body_sha256@ == hex_lower(sha256_digest(body)),
        replay_check(protector.spec_config(), protector.spec_used(), bundle.context, now).1 is Ok,
        auth_outcome(bundle, expected_public_key, audience, method, path, body, now, protector).0
            == replay_check(protector.spec_config(), protector.spec_used(), bundle.context, now).0,
        ristretto_basepoint_mul(le_nat(bundle.proof.response@)) == ristretto_add(
            bundle.proof.commitment@,
            ristretto_mul(
                challenge_value(
                    context_label(),
                    context_messages(bundle.context),
                    bundle.public_key@,
                    bundle.proof.commitment@,
                ),
                bundle.public_key@,
            ),
        ),
{
    lemma_verdict_meaning(
        bundle.public_key@,
        bundle.proof.commitment@,
        bundle_challenge(bundle),
        bundle.proof.response@,
    );
}

/// A bundle that matches the request and passes the replay check but whose
/// proof fails the Schnorr equation is rejected as an invalid proof, and its
/// nonce is spent all the same: the store is the one the replay check left.
pub proof fn lemma_failed_proof_spends_nonce(
    bundle: AuthProofBundle,
    expected_public_key: Seq<u8>,
    audience: Seq<char>,
    method: Seq<char>,
    path: Seq<char>,
    body: Seq<u8>,
    now: u64,
    protector: ReplayProtector,
)
    requires
        bundle.public_key@ == expected_public_key,
        bundle.context.audience@ == audience,
        bundle.context.method@ == unicode_uppercase(method),
        bundle.context.path@ == path,
        bundle.context.body_sha256@ == hex_lower(sha256_digest(body)),
        replay_check(protector.spec_config(), protector.spec_used(), bundle.context, now).1 is Ok,
        ristretto_decodes(bundle.public_key@),
        ristretto_decodes(bundle.proof.commitment@),
        le_nat(bundle.proof.response@) < group_order(),
        ristretto_basepoint_mul(le_nat(bundle.proof.response@)) != ristretto_add(
            bundle.proof.commitment@,
            ristretto_mul(bundle_challenge(bundle), bundle.public_key@),
        ),
    ensures
        auth_outcome(bundle, expected_public_key, audience, method, path, body, now, protector)
            == (
            replay_check(protector.spec_config(), protector.spec_used(), bundle.context, now).0,
            Err::<(), AuthVerificationError>(
                AuthVerificationError::InvalidProof(VerificationError::InvalidProof),
            ),
        ),
{
    lemma_verdict_meaning(
        bundle.public_key@,
        bundle.proof.commitment@,
        bundle_challenge(bundle),
        bundle.proof.response@,
    );
}

} // verus!
