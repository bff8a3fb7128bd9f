use curve25519_dalek::constants::RISTRETTO_BASEPOINT_POINT;
use curve25519_dalek::scalar::Scalar as DalekScalar;
use rand_core::OsRng;
use sha2::{Digest, Sha512};

use zkp_auth::context::sha256_hex;
use zkp_auth::request_proof::unix_seconds_or_zero;
use zkp_auth::{
    create_auth_proof, create_auth_proof_with_nonce, current_unix_timestamp,
    prove_non_interactive_with_nonce, ProverState, generate_interactive_commitment,
    verify_auth_proof, verify_interactive, verify_non_interactive, AuthContext,
    AuthVerificationError, Commitment, PublicKey, ReplayProtector, ReplayProtectorConfig,
    Scalar, SchnorrProof, SecretKey, Transcript, VerificationError,
};

const BASEPOINT_ENCODING: [u8; 32] = [
    0xe2, 0xf2, 0xae, 0x0a, 0x6a, 0xbc, 0x4e, 0x71, 0xa8, 0x84, 0xa9, 0x61, 0xc5, 0x00, 0x51, 0x5f,
    0x58, 0xe3, 0x0b, 0x6a, 0xa5, 0x82, 0xdd, 0x8d, 0xb6, 0xa6, 0x59, 0x45, 0xe0, 0x8d, 0x2d, 0x76,
];

const GROUP_ORDER_BYTES: [u8; 32] = [
    0xed, 0xd3, 0xf5, 0x5c, 0x1a, 0x63, 0x12, 0x58, 0xd6, 0x9c, 0xf7, 0xa2, 0xde, 0xf9, 0xde, 0x14,
    0, 0, 0, 0, 0, 0, 0, 0, 0, 0, 0, 0, 0, 0, 0, 0x10,
];

fn small(n: u8) -> [u8; 32] {
    let mut b = [0u8; 32];
    b[0] = n;
    b
}

fn framed(label: &[u8], message: &[u8]) -> Vec<u8> {
    let mut out = Vec::new();
    out.extend_from_slice(&(label.len() as u64).to_le_bytes());
    out.extend_from_slice(label);
    out.extend_from_slice(&(message.len() as u64).to_le_bytes());
    out.extend_from_slice(message);
    out
}

fn expected_challenge(label: &[u8], messages: &[Vec<u8>], pk: &[u8; 32], r: &[u8; 32]) -> DalekScalar {
    let mut h = Sha512::new();
    h.update(b"zkp-auth-schnorr-fiat-shamir-v1");
    h.update((label.len() as u64).to_le_bytes());
    h.update(label);
    h.update(pk);
    h.update(r);
    for m in messages {
        h.update(m);
    }
    let digest: [u8; 64] = h.finalize().into();
    DalekScalar::from_bytes_mod_order_wide(&digest)
}

fn context_at(service: &str, audience: &str, nonce: &str, ts: u64) -> AuthContext {
    AuthContext {
        service_id: service.to_string(),
        audience: audience.to_string(),
        method: "POST".to_string(),
        path: "/p".to_string(),
        body_sha256: sha256_hex(b""),
        nonce: nonce.to_string(),
        timestamp_unix_secs: ts,
    }
}

#[test]
fn public_key_of_one_is_the_basepoint() {
    let key = SecretKey::from_bytes(small(1));
    assert_eq!(key.public_key().as_bytes(), &BASEPOINT_ENCODING);
}

#[test]
fn from_bytes_reduces_modulo_group_order() {
    assert_eq!(SecretKey::from_bytes(GROUP_ORDER_BYTES).to_bytes(), [0u8; 32]);
    let mut l_plus_two = GROUP_ORDER_BYTES;
    l_plus_two[0] += 2;
    assert_eq!(SecretKey::from_bytes(l_plus_two).to_bytes(), small(2));
    let all_ones = [0xffu8; 32];
    let reduced = SecretKey::from_bytes(all_ones).to_bytes();
    assert_ne!(reduced, all_ones);
    assert_eq!(reduced, DalekScalar::from_bytes_mod_order(all_ones).to_bytes());
}

#[test]
fn unreduced_key_has_the_same_public_key_as_its_reduction() {
    let mut l_plus_one = GROUP_ORDER_BYTES;
    l_plus_one[0] += 1;
    let raw = SecretKey::from_raw_bytes(l_plus_one);
    assert_eq!(raw.public_key(), SecretKey::from_bytes(small(1)).public_key());
}

#[test]
fn random_keys_are_canonical_and_distinct() {
    let mut rng = OsRng;
    let a = SecretKey::random(&mut rng).expect("operating system random bytes");
    let b = SecretKey::random(&mut rng).expect("operating system random bytes");
    assert_ne!(a, b);
    assert_eq!(SecretKey::from_bytes(a.to_bytes()), a);
}

#[test]
fn scalar_arithmetic_is_modular() {
    let two = Scalar::from_bytes_mod_order(small(2));
    let three = Scalar::from_bytes_mod_order(small(3));
    assert_eq!(two.add(&three).to_bytes(), small(5));
    assert_eq!(two.mul(&three).to_bytes(), small(6));
    let mut l_minus_one = GROUP_ORDER_BYTES;
    l_minus_one[0] -= 1;
    let minus_one = Scalar::from_bytes_mod_order(l_minus_one);
    assert_eq!(minus_one.add(&two).to_bytes(), small(1));
    assert_eq!(minus_one.mul(&minus_one).to_bytes(), small(1));
    let mut wide = [0u8; 64];
    wide[..32].copy_from_slice(&GROUP_ORDER_BYTES);
    wide[0] += 7;
    assert_eq!(Scalar::from_bytes_mod_order_wide(&wide).to_bytes(), small(7));
}

#[test]
fn challenge_hashes_the_framed_transcript() {
    let mut rng = OsRng;
    let secret = SecretKey::from_bytes(small(9));
    let public_key = secret.public_key();
    let mut transcript = Transcript::new(b"label");
    transcript.append_message(b"a", b"hello");
    transcript.append_message(b"bb", b"");
    let messages = vec![framed(b"a", b"hello"), framed(b"bb", b"")];

    let r = DalekScalar::random(&mut rng);
    let commitment = (r * RISTRETTO_BASEPOINT_POINT).compress().to_bytes();
    let c = expected_challenge(b"label", &messages, public_key.as_bytes(), &commitment);
    let z = r + c * DalekScalar::from_bytes_mod_order(small(9));
    let proof = SchnorrProof { commitment: Commitment::from_encoding(commitment), response: z.to_bytes() };
    assert_eq!(verify_non_interactive(&public_key, &proof, &transcript), Ok(()));

    let mut other = Transcript::new(b"label");
    other.append_message(b"a", b"hello");
    assert_eq!(
        verify_non_interactive(&public_key, &proof, &other),
        Err(VerificationError::InvalidProof)
    );
}

#[test]
fn interactive_protocol_accepts_honest_response() {
    let mut rng = OsRng;
    let secret = SecretKey::random(&mut rng).expect("operating system random bytes");
    let public_key = secret.public_key();
    let state = generate_interactive_commitment(&mut rng).expect("operating system random bytes");
    let commitment = state.commitment().clone();
    let challenge = Scalar::from_bytes_mod_order(small(42));
    let proof = state.respond(&secret, challenge);
    assert_eq!(proof.commitment, commitment);
    assert_eq!(verify_interactive(&public_key, &commitment, challenge, proof.response), Ok(()));
    let other = Scalar::from_bytes_mod_order(small(43));
    assert_eq!(
        verify_interactive(&public_key, &commitment, other, proof.response),
        Err(VerificationError::InvalidProof)
    );
}

#[test]
fn response_is_nonce_plus_challenge_times_secret() {
    let secret = SecretKey::from_bytes(small(5));
    let mut rng = OsRng;
    let state = generate_interactive_commitment(&mut rng).expect("operating system random bytes");
    let commitment = *state.commitment().as_bytes();
    let proof = state.respond(&secret, Scalar::from_bytes_mod_order(small(0)));
    // With a zero challenge the response is the nonce itself: z * G == R.
    let z = DalekScalar::from_canonical_bytes(proof.response).unwrap();
    assert_eq!((z * RISTRETTO_BASEPOINT_POINT).compress().to_bytes(), commitment);
}

#[test]
fn verify_interactive_reports_each_malformed_part() {
    let key = SecretKey::from_bytes(small(3)).public_key();
    let good_commitment = Commitment::from_encoding(BASEPOINT_ENCODING);
    let c = Scalar::from_bytes_mod_order(small(1));
    let bad = [0xffu8; 32];
    assert_eq!(
        verify_interactive(&PublicKey::from_encoding(bad), &good_commitment, c, small(1)),
        Err(VerificationError::InvalidPublicKey)
    );
    assert_eq!(
        verify_interactive(&key, &Commitment::from_encoding(bad), c, small(1)),
        Err(VerificationError::InvalidCommitment)
    );
    assert_eq!(
        verify_interactive(&key, &good_commitment, c, GROUP_ORDER_BYTES),
        Err(VerificationError::InvalidResponse)
    );
    // z = 1 + 1 * 3 = 4 answers R = G for the key 3 * G.
    assert_eq!(verify_interactive(&key, &good_commitment, c, small(4)), Ok(()));
    assert_eq!(
        verify_interactive(&key, &good_commitment, c, small(5)),
        Err(VerificationError::InvalidProof)
    );
}

#[test]
fn sha256_hex_matches_known_digests() {
    assert_eq!(
        sha256_hex(b"abc"),
        "ba7816bf8f01cfea414140de5dae2223b00361a396177a9cb410ff61f20015ad"
    );
    assert_eq!(
        sha256_hex(b""),
        "e3b0c44298fc1c149afbf4c8996fb92427ae41e4649b934ca495991b7852b855"
    );
}

#[test]
fn context_new_normalises_and_hashes() {
    let mut rng = OsRng;
    let a = AuthContext::new("svc", "aud", "post", "/x", b"abc", &mut rng, 7).expect("operating system random bytes");
    let b = AuthContext::new("svc", "aud", "post", "/x", b"abc", &mut rng, 7).expect("operating system random bytes");
    assert_eq!(a.service_id, "svc");
    assert_eq!(a.audience, "aud");
    assert_eq!(a.method, "POST");
    assert_eq!(a.path, "/x");
    assert_eq!(a.body_sha256, sha256_hex(b"abc"));
    assert_eq!(a.timestamp_unix_secs, 7);
    assert_eq!(a.nonce.len(), 32);
    assert!(a.nonce.chars().all(|ch| ch.is_ascii_hexdigit() && !ch.is_ascii_uppercase()));
    assert_ne!(a.nonce, b.nonce);
    let german = AuthContext::new("s", "a", "straße", "/", b"", &mut rng, 0).expect("operating system random bytes");
    assert_eq!(german.method, "STRASSE");
}

#[test]
fn default_replay_config() {
    let config = ReplayProtectorConfig::default();
    assert_eq!(config.max_clock_skew_secs, 300);
    assert_eq!(config.nonce_ttl_secs, 600);
}

#[test]
fn replay_window_boundaries() {
    let config = ReplayProtectorConfig { max_clock_skew_secs: 300, nonce_ttl_secs: 600 };
    let mut store = ReplayProtector::new(config);
    assert_eq!(store.verify_and_store(&context_at("s", "a", "n1", 1000), 1300), Ok(()));
    assert_eq!(store.verify_and_store(&context_at("s", "a", "n2", 1000), 700), Ok(()));
    assert_eq!(
        store.verify_and_store(&context_at("s", "a", "n3", 1000), 1301),
        Err(AuthVerificationError::ExpiredTimestamp)
    );
    assert_eq!(
        store.verify_and_store(&context_at("s", "a", "n3", 1000), 699),
        Err(AuthVerificationError::ExpiredTimestamp)
    );
    // A rejected timestamp does not consume the nonce.
    assert_eq!(store.verify_and_store(&context_at("s", "a", "n3", 1000), 1000), Ok(()));
}

#[test]
fn nonce_is_forgotten_when_it_expires() {
    let config = ReplayProtectorConfig { max_clock_skew_secs: 10_000, nonce_ttl_secs: 600 };
    let mut store = ReplayProtector::new(config);
    let ctx = context_at("s", "a", "n", 5000);
    assert_eq!(store.verify_and_store(&ctx, 5000), Ok(()));
    assert_eq!(store.verify_and_store(&ctx, 5599), Err(AuthVerificationError::ReplayDetected));
    assert_eq!(store.verify_and_store(&ctx, 5600), Ok(()));
    assert_eq!(store.verify_and_store(&ctx, 6100), Err(AuthVerificationError::ReplayDetected));
}

#[test]
fn nonce_key_joins_service_audience_and_nonce() {
    let config = ReplayProtectorConfig::default();
    let mut store = ReplayProtector::new(config);
    assert_eq!(store.verify_and_store(&context_at("s", "a", "n", 100), 100), Ok(()));
    assert_eq!(store.verify_and_store(&context_at("s", "b", "n", 100), 100), Ok(()));
    assert_eq!(store.verify_and_store(&context_at("t", "a", "n", 100), 100), Ok(()));
    assert_eq!(
        store.verify_and_store(&context_at("s", "a", "n", 100), 100),
        Err(AuthVerificationError::ReplayDetected)
    );
    // The colon-joined key does not tell these two apart.
    assert_eq!(store.verify_and_store(&context_at("x:y", "z", "m", 100), 100), Ok(()));
    assert_eq!(
        store.verify_and_store(&context_at("x", "y:z", "m", 100), 100),
        Err(AuthVerificationError::ReplayDetected)
    );
}

#[test]
fn verify_auth_proof_checks_in_order() {
    let mut rng = OsRng;
    let secret = SecretKey::random(&mut rng).expect("operating system random bytes");
    let public_key = secret.public_key();
    let other_key = SecretKey::random(&mut rng).expect("operating system random bytes").public_key();
    let ts = 1_800_000_000;
    let ctx = AuthContext::new("svc", "aud", "GET", "/items", b"body", &mut rng, ts).expect("operating system random bytes");
    let bundle = create_auth_proof(&mut rng, &secret, ctx.clone()).expect("operating system random bytes");
    assert_eq!(bundle.context, ctx);
    assert_eq!(bundle.public_key, public_key);

    let mut store = ReplayProtector::new(ReplayProtectorConfig::default());
    assert_eq!(
        verify_auth_proof(&bundle, &other_key, "aud", "GET", "/items", b"body", ts, &mut store),
        Err(AuthVerificationError::PublicKeyMismatch)
    );
    assert_eq!(
        verify_auth_proof(&bundle, &public_key, "other", "GET", "/items", b"body", ts, &mut store),
        Err(AuthVerificationError::RequestContextMismatch)
    );
    assert_eq!(
        verify_auth_proof(&bundle, &public_key, "aud", "POST", "/items", b"body", ts, &mut store),
        Err(AuthVerificationError::RequestContextMismatch)
    );
    assert_eq!(
        verify_auth_proof(&bundle, &public_key, "aud", "GET", "/items", b"other", ts, &mut store),
        Err(AuthVerificationError::RequestContextMismatch)
    );
    // The method is compared case-insensitively through upper-casing.
    assert_eq!(
        verify_auth_proof(&bundle, &public_key, "aud", "get", "/items", b"body", ts, &mut store),
        Ok(())
    );
}

#[test]
fn tampered_bundle_is_rejected_but_its_nonce_is_spent() {
    let mut rng = OsRng;
    let secret = SecretKey::random(&mut rng).expect("operating system random bytes");
    let public_key = secret.public_key();
    let ts = 1_800_000_000;
    let ctx = AuthContext::new("svc", "aud", "GET", "/items", b"", &mut rng, ts).expect("operating system random bytes");
    let bundle = create_auth_proof(&mut rng, &secret, ctx).expect("operating system random bytes");

    let mut tampered = bundle.clone();
    tampered.context.path = "/admin".to_string();
    let mut store = ReplayProtector::new(ReplayProtectorConfig::default());
    assert_eq!(
        verify_auth_proof(&tampered, &public_key, "aud", "GET", "/admin", b"", ts, &mut store),
        Err(AuthVerificationError::InvalidProof(VerificationError::InvalidProof))
    );
    assert_eq!(
        verify_auth_proof(&bundle, &public_key, "aud", "GET", "/items", b"", ts, &mut store),
        Err(AuthVerificationError::ReplayDetected)
    );

    let mut bad_response = bundle.clone();
    bad_response.proof.response[0] ^= 1;
    let mut store = ReplayProtector::new(ReplayProtectorConfig::default());
    assert_eq!(
        verify_auth_proof(&bad_response, &public_key, "aud", "GET", "/items", b"", ts, &mut store),
        Err(AuthVerificationError::InvalidProof(VerificationError::InvalidProof))
    );

    let bad_key = PublicKey::from_encoding([0xff; 32]);
    let mut bad_key_bundle = bundle.clone();
    bad_key_bundle.public_key = bad_key.clone();
    let mut store = ReplayProtector::new(ReplayProtectorConfig::default());
    assert_eq!(
        verify_auth_proof(&bad_key_bundle, &bad_key, "aud", "GET", "/items", b"", ts, &mut store),
        Err(AuthVerificationError::InvalidProof(VerificationError::InvalidPublicKey))
    );
}

#[test]
fn accepted_bundle_cannot_be_replayed_later() {
    let mut rng = OsRng;
    let secret = SecretKey::random(&mut rng).expect("operating system random bytes");
    let public_key = secret.public_key();
    let ts = 1_800_000_000;
    let ctx = AuthContext::new("svc", "aud", "PUT", "/x", b"1", &mut rng, ts).expect("operating system random bytes");
    let bundle = create_auth_proof(&mut rng, &secret, ctx).expect("operating system random bytes");
    let mut store = ReplayProtector::new(ReplayProtectorConfig::default());
    assert_eq!(verify_auth_proof(&bundle, &public_key, "aud", "PUT", "/x", b"1", ts, &mut store), Ok(()));
    assert_eq!(
        verify_auth_proof(&bundle, &public_key, "aud", "PUT", "/x", b"1", ts + 299, &mut store),
        Err(AuthVerificationError::ReplayDetected)
    );
}

#[test]
fn error_messages() {
    assert_eq!(VerificationError::InvalidPublicKey.message(), "public key is not a valid Ristretto point");
    assert_eq!(VerificationError::InvalidProof.message(), "Schnorr equation does not hold");
    assert_eq!(AuthVerificationError::ReplayDetected.message(), "nonce was already used");
    assert_eq!(
        AuthVerificationError::InvalidProof(VerificationError::InvalidResponse).message(),
        "invalid Schnorr proof: proof response is not a canonical scalar"
    );
    assert_eq!(
        AuthVerificationError::from(VerificationError::InvalidCommitment),
        AuthVerificationError::InvalidProof(VerificationError::InvalidCommitment)
    );
}

#[test]
fn clock_reads_after_epoch() {
    assert!(current_unix_timestamp() > 1_700_000_000);
}

#[test]
fn default_transcript_equals_empty_label() {
    let mut rng = OsRng;
    let secret = SecretKey::random(&mut rng).expect("operating system random bytes");
    let (pk, proof) = zkp_auth::prove_non_interactive(&mut rng, &secret, &Transcript::default()).expect("operating system random bytes");
    assert!(verify_non_interactive(&pk, &proof, &Transcript::new(b"")).is_ok());
}

#[test]
fn context_transcript_frames_every_field() {
    let ctx = AuthContext {
        service_id: "order-service".to_string(),
        audience: "warehouse-service".to_string(),
        method: "POST".to_string(),
        path: "/reservations".to_string(),
        body_sha256: sha256_hex(b"{}"),
        nonce: "00112233445566778899aabbccddeeff".to_string(),
        timestamp_unix_secs: 1_800_000_042,
    };
    let messages = vec![
        framed(b"service_id", b"order-service"),
        framed(b"audience", b"warehouse-service"),
        framed(b"method", b"POST"),
        framed(b"path", b"/reservations"),
        framed(b"body_sha256", ctx.body_sha256.as_bytes()),
        framed(b"nonce", b"00112233445566778899aabbccddeeff"),
        framed(b"timestamp_unix_secs", b"1800000042"),
    ];
    let secret = SecretKey::from_bytes(small(11));
    let public_key = secret.public_key();
    let r = DalekScalar::from_bytes_mod_order(small(77));
    let commitment = (r * RISTRETTO_BASEPOINT_POINT).compress().to_bytes();
    let c = expected_challenge(b"zkp-auth-schnorr-http-v1", &messages, public_key.as_bytes(), &commitment);
    let z = r + c * DalekScalar::from_bytes_mod_order(small(11));
    let proof = SchnorrProof { commitment: Commitment::from_encoding(commitment), response: z.to_bytes() };
    assert_eq!(verify_non_interactive(&public_key, &proof, &ctx.transcript()), Ok(()));

    let mut later = ctx.clone();
    later.timestamp_unix_secs += 1;
    assert_eq!(
        verify_non_interactive(&public_key, &proof, &later.transcript()),
        Err(VerificationError::InvalidProof)
    );
}


#[test]
fn raw_proof_is_commitment_and_response() {
    let mut rng = OsRng;
    let secret = SecretKey::random(&mut rng).expect("operating system random bytes");
    let ctx = AuthContext::new("order-service", "warehouse-service", "POST", "/reserve", b"x", &mut rng, current_unix_timestamp()).expect("operating system random bytes");
    let bundle = create_auth_proof(&mut rng, &secret, ctx).expect("operating system random bytes");
    assert_eq!(bundle.proof.commitment.as_bytes().len() + bundle.proof.response.len(), 64);
}

#[test]
fn clock_reading_maps_to_timestamp() {
    assert_eq!(unix_seconds_or_zero(Some(1_800_000_000)), 1_800_000_000);
    assert_eq!(unix_seconds_or_zero(None), 0);
}

const NONCE_BYTES: [u8; 16] = [
    0x00, 0x11, 0x22, 0x33, 0x44, 0x55, 0x66, 0x77, 0x88, 0x99, 0xaa, 0xbb, 0xcc, 0xdd, 0xee, 0xff,
];

#[test]
fn context_with_nonce_is_exact() {
    let ctx = AuthContext::with_nonce("svc", "aud", "delete", "/r", b"abc", NONCE_BYTES, 99);
    assert_eq!(ctx.service_id, "svc");
    assert_eq!(ctx.audience, "aud");
    assert_eq!(ctx.method, "DELETE");
    assert_eq!(ctx.path, "/r");
    assert_eq!(ctx.body_sha256, "ba7816bf8f01cfea414140de5dae2223b00361a396177a9cb410ff61f20015ad");
    assert_eq!(ctx.nonce, "00112233445566778899aabbccddeeff");
    assert_eq!(ctx.timestamp_unix_secs, 99);
}

#[test]
fn proof_with_nonce_is_nonce_plus_challenge_times_key() {
    let secret = SecretKey::from_bytes(small(13));
    let transcript = Transcript::new(b"t");
    let nonce = Scalar::from_bytes_mod_order(small(21));
    let (public_key, proof) = prove_non_interactive_with_nonce(nonce, &secret, &transcript);
    let r = DalekScalar::from_bytes_mod_order(small(21));
    let commitment = (r * RISTRETTO_BASEPOINT_POINT).compress().to_bytes();
    assert_eq!(proof.commitment.as_bytes(), &commitment);
    let c = expected_challenge(b"t", &[], public_key.as_bytes(), &commitment);
    let z = r + c * DalekScalar::from_bytes_mod_order(small(13));
    assert_eq!(proof.response, z.to_bytes());
    assert_eq!(
        ProverState::from_nonce(nonce).commitment().as_bytes(),
        &commitment
    );
}

#[test]
fn bundle_with_nonce_is_exact() {
    let secret = SecretKey::from_bytes(small(17));
    let ctx = AuthContext::with_nonce("svc", "aud", "GET", "/", b"", NONCE_BYTES, 1_800_000_000);
    let nonce = Scalar::from_bytes_mod_order(small(5));
    let bundle = create_auth_proof_with_nonce(nonce, &secret, ctx.clone());
    assert_eq!(bundle.context, ctx);
    assert_eq!(bundle.public_key, secret.public_key());
    let (pk, proof) = prove_non_interactive_with_nonce(nonce, &secret, &ctx.transcript());
    assert_eq!(bundle.public_key, pk);
    assert_eq!(bundle.proof, proof);
    let mut store = ReplayProtector::new(ReplayProtectorConfig::default());
    assert_eq!(
        verify_auth_proof(&bundle, &pk, "aud", "GET", "/", b"", 1_800_000_000, &mut store),
        Ok(())
    );
}

#[test]
fn identity_key_with_unreduced_response_is_an_invalid_response() {
    let pk = SecretKey::from_bytes([0u8; 32]).public_key();
    let mut rng = OsRng;
    let state = generate_interactive_commitment(&mut rng).expect("operating system random bytes");
    let r = state.commitment().clone();
    let zero = Scalar::from_bytes_mod_order([0u8; 32]);
    assert_eq!(
        verify_interactive(&pk, &r, zero, [0xffu8; 32]),
        Err(VerificationError::InvalidResponse)
    );
}

#[test]
fn framing_separates_label_and_message_boundaries() {
    let secret = SecretKey::from_bytes(small(3));
    let mut first = Transcript::new(b"x");
    first.append_message(b"ab", b"c");
    let mut second = Transcript::new(b"x");
    second.append_message(b"a", b"bc");
    let (pk, proof) = prove_non_interactive_with_nonce(Scalar::from_bytes_mod_order(small(8)), &secret, &first);
    assert_eq!(verify_non_interactive(&pk, &proof, &first), Ok(()));
    assert_eq!(verify_non_interactive(&pk, &proof, &second), Err(VerificationError::InvalidProof));
}

#[test]
fn expired_nonce_removal_is_idempotent_in_effect() {
    let config = ReplayProtectorConfig { max_clock_skew_secs: 1_000, nonce_ttl_secs: 10 };
    let mut store = ReplayProtector::new(config);
    assert_eq!(store.verify_and_store(&context_at("s", "a", "n", 100), 100), Ok(()));
    // At 110 the nonce has expired and is dropped, so it is accepted again.
    assert_eq!(store.verify_and_store(&context_at("s", "a", "m", 100), 110), Ok(()));
    assert_eq!(store.verify_and_store(&context_at("s", "a", "n", 100), 110), Ok(()));
    assert_eq!(
        store.verify_and_store(&context_at("s", "a", "m", 100), 115),
        Err(AuthVerificationError::ReplayDetected)
    );
}

#[test]
fn removing_expired_nonces_twice_changes_nothing_more() {
    let config = ReplayProtectorConfig { max_clock_skew_secs: 1_000, nonce_ttl_secs: 10 };
    let mut store = ReplayProtector::new(config);
    assert_eq!(store.verify_and_store(&context_at("s", "a", "n", 100), 100), Ok(()));
    store.remove_expired_nonces(105);
    store.remove_expired_nonces(105);
    assert_eq!(
        store.verify_and_store(&context_at("s", "a", "n", 100), 105),
        Err(AuthVerificationError::ReplayDetected)
    );
    store.remove_expired_nonces(110);
    assert_eq!(store.verify_and_store(&context_at("s", "a", "n", 100), 110), Ok(()));
}
