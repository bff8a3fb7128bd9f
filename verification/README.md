# zkp_auth

Authentication of service-to-service HTTP requests with non-interactive
Schnorr proofs over the Ristretto group (via `curve25519-dalek`), made
non-interactive by a Fiat–Shamir transcript that binds the proof to the
request: service, audience, method, path, body digest, nonce and timestamp.
A timestamp window and a store of used nonces stop replays.

Layout:

- `src/` — the library, specified and proved with Verus.
  - `scalar`, `group`: scalars modulo the group order and group elements held
    by their encodings; the arithmetic is delegated to `curve25519-dalek`
    through small trusted wrappers whose contracts name its results.
  - `fiat_shamir`, `prover`, `verification`: the transcript, proving and
    verifying.  Proved: an honestly made proof is always accepted.
  - `context`, `replay`, `request_proof`, `error`: the request layer.  Proved:
    exact outcomes of every check, and that an accepted request cannot be
    replayed while its nonce is remembered.
  - `hashing`, `text`, `rng`, `bytes`: SHA-2, hex, upper-casing, the OS
    random generator and byte encodings.
- `tests/` — scenario tests run against the compiled library.
- `app/` — serde and `std::error::Error` copies of the public types, with
  conversions to and from the library's types, and entry points that draw
  nonces and keys from any `RngCore + CryptoRng` generator before calling
  the library's `with_nonce` functions.
