//! The authentication context: the data of one HTTP request that a proof is
//! bound to, and the transcript it yields.
use vstd::prelude::*;
use vstd::string::StringSliceAdditionalSpecFns;
use vstd::utf8::encode_utf8;
use crate::bytes::{
    decimal_digits, lemma_decimal_digits_injective, lemma_le_bytes_len, u64_decimal,
};
use crate::fiat_shamir::{Transcript, frame_message};
use crate::hashing::{sha256, sha256_digest};
use crate::rng::try_random_bytes_16;
use crate::text::{hex_encode, hex_lower, to_uppercase, unicode_uppercase};
use rand_core::OsRng;

verus! {

/// The request data a proof is made for.
#[derive(Clone, Debug, PartialEq, Eq)]
pub struct AuthContext {
    pub service_id: String,
    pub audience: String,
    pub method: String,
    pub path: String,
    pub body_sha256: String,
    pub nonce: String,
    pub timestamp_unix_secs: u64,
}

/// The lower-case hexadecimal SHA-256 digest of a request body.
pub open spec fn body_digest_text(body: Seq<u8>) -> Seq<char> {
    hex_lower(sha256_digest(body))
}

/// The label of every request transcript.
pub open spec fn context_label() -> Seq<u8> {
    "zkp-auth-schnorr-http-v1".spec_bytes()
}

/// The messages of a request transcript: every field of the context under
/// its own name, the timestamp in decimal, in a fixed order.
pub open spec fn context_messages(context: AuthContext) -> Seq<Seq<u8>> {
    seq![
        frame_message("service_id".spec_bytes(), encode_utf8(context.service_id@)),
        frame_message("audience".spec_bytes(), encode_utf8(context.audience@)),
        frame_message("method".spec_bytes(), encode_utf8(context.method@)),
        frame_message("path".spec_bytes(), encode_utf8(context.path@)),
        frame_message("body_sha256".spec_bytes(), encode_utf8(context.body_sha256@)),
        frame_message("nonce".spec_bytes(), encode_utf8(context.nonce@)),
        frame_message(
            "timestamp_unix_secs".spec_bytes(),
            decimal_digits(context.timestamp_unix_secs as nat),
        ),
    ]
}

/// Whether two contexts hold the same text in every field and the same
/// timestamp.
pub open spec fn same_fields(a: AuthContext, b: AuthContext) -> bool {
    &&& a.service_id@ == b.service_id@
    &&& a.audience@ == b.audience@
    &&& a.method@ == b.method@
    &&& a.path@ == b.path@
    &&& a.body_sha256@ == b.body_sha256@
    &&& a.nonce@ == b.nonce@
    &&& a.timestamp_unix_secs == b.timestamp_unix_secs
}

/// Framed messages under one label are equal only if the messages are.
proof fn lemma_frame_message_injective(label: Seq<u8>, m1: Seq<u8>, m2: Seq<u8>)
    requires
        frame_message(label, m1) == frame_message(label, m2),
    ensures
        m1 == m2,
{
    let f = frame_message(label, m1);
    lemma_le_bytes_len(label.len() as u64 as nat, 8);
    lemma_le_bytes_len(m1.len() as u64 as nat, 8);
    lemma_le_bytes_len(m2.len() as u64 as nat, 8);
    let start: int = 16 + label.len() as int;
    assert(m1 =~= f.subrange(start, f.len() as int));
    assert(m2 =~= frame_message(label, m2).subrange(start, f.len() as int));
}

/// Texts with the same UTF-8 bytes are the same text.
proof fn lemma_utf8_injective(a: Seq<char>, b: Seq<char>)
    requires
        encode_utf8(a) == encode_utf8(b),
    ensures
        a == b,
{
    vstd::utf8::encode_utf8_decode_utf8(a);
    vstd::utf8::encode_utf8_decode_utf8(b);
}

/// The transcript of a context determines the context: two contexts give
/// the same transcript messages exactly when every field (the timestamp as
/// its decimal text) is the same, so changing any field changes what the
/// challenge is computed from.
pub proof fn lemma_transcript_determines_context(a: AuthContext, b: AuthContext)
    ensures
        context_messages(a) == context_messages(b) <==> same_fields(a, b),
{
    if context_messages(a) == context_messages(b) {
        let ma = context_messages(a);
        let mb = context_messages(b);
        assert(ma[0] == mb[0]);
        assert(ma[1] == mb[1]);
        assert(ma[2] == mb[2]);
        assert(ma[3] == mb[3]);
        assert(ma[4] == mb[4]);
        assert(ma[5] == mb[5]);
        assert(ma[6] == mb[6]);
        lemma_frame_message_injective(
            "service_id".spec_bytes(),
            encode_utf8(a.service_id@),
            encode_utf8(b.service_id@),
        );
        lemma_utf8_injective(a.service_id@, b.service_id@);
        lemma_frame_message_injective(
            "audience".spec_bytes(),
            encode_utf8(a.audience@),
            encode_utf8(b.audience@),
        );
        lemma_utf8_injective(a.audience@, b.audience@);
        lemma_frame_message_injective(
            "method".spec_bytes(),
            encode_utf8(a.method@),
            encode_utf8(b.method@),
        );
        lemma_utf8_injective(a.method@, b.method@);
        lemma_frame_message_injective(
            "path".spec_bytes(),
            encode_utf8(a.path@),
            encode_utf8(b.path@),
        );
        lemma_utf8_injective(a.path@, b.path@);
        lemma_frame_message_injective(
            "body_sha256".spec_bytes(),
            encode_utf8(a.body_sha256@),
            encode_utf8(b.body_sha256@),
        );
        lemma_utf8_injective(a.body_sha256@, b.body_sha256@);
        lemma_frame_message_injective(
            "nonce".spec_bytes(),
            encode_utf8(a.nonce@),
            encode_utf8(b.nonce@),
        );
        lemma_utf8_injective(a.nonce@, b.nonce@);
        lemma_frame_message_injective(
            "timestamp_unix_secs".spec_bytes(),
            decimal_digits(a.timestamp_unix_secs as nat),
            decimal_digits(b.timestamp_unix_secs as nat),
        );
        lemma_decimal_digits_injective(a.timestamp_unix_secs as nat, b.timestamp_unix_secs as nat);
    }
    if same_fields(a, b) {
        assert(context_messages(a) =~= context_messages(b));
    }
}

/// The lower-case hexadecimal SHA-256 digest of `body`.
pub fn sha256_hex(body: &[u8]) -> (res: String)
    ensures
        res@ == body_digest_text(body@),
{
    let digest = sha256(body);
    hex_encode(&digest)
}

impl AuthContext {
    /// The context of a request from `service_id` to `audience` with the
    /// nonce bytes `nonce`: the method in upper case, the body by its SHA-256
    /// digest and the nonce in lower-case hexadecimal.
    pub fn with_nonce(
        service_id: &str,
        audience: &str,
        method: &str,
        path: &str,
        body: &[u8],
        nonce: [u8; 16],
        timestamp_unix_secs: u64,
    ) -> (res: AuthContext)
        ensures
            res.service_id@ == service_id@,
            res.audience@ == audience@,
            res.method@ == unicode_uppercase(method@),
            res.path@ == path@,
            res.body_sha256@ == body_digest_text(body@),
            res.nonce@ == hex_lower(nonce@),
            res.timestamp_unix_secs == timestamp_unix_secs,
    {
        AuthContext {
            service_id: service_id.to_owned(),
            audience: audience.to_owned(),
            method: to_uppercase(method),
            path: path.to_owned(),
            body_sha256: sha256_hex(body),
            nonce: hex_encode(&nonce),
            timestamp_unix_secs,
        }
    }

    /// The context of a request from `service_id` to `audience` with a fresh
    /// nonce of sixteen bytes drawn from `rng`, as `with_nonce` builds it;
    /// nothing when the operating system supplies no random bytes.
    pub fn new(
        service_id: &str,
        audience: &str,
        method: &str,
        path: &str,
        body: &[u8],
        rng: &mut OsRng,
        timestamp_unix_secs: u64,
    ) -> (res: Option<AuthContext>)
        ensures
            res matches Some(context) ==> {
                &&& context.service_id@ == service_id@
                &&& context.audience@ == audience@
                &&& context.method@ == unicode_uppercase(method@)
                &&& context.path@ == path@
                &&& context.body_sha256@ == body_digest_text(body@)
                &&& exists|n: Seq<u8>| n.len() == 16 && context.nonce@ == hex_lower(n)
                &&& context.timestamp_unix_secs == timestamp_unix_secs
            },
    {
        match try_random_bytes_16(rng) {
            Some(nonce) => {
                let context = AuthContext::with_nonce(
                    service_id,
                    audience,
                    method,
                    path,
                    body,
                    nonce,
                    timestamp_unix_secs,
                );
                assert(nonce@.len() == 16);
                Some(context)
            },
            None => None,
        }
    }

    /// The transcript that binds a proof to this request: every field
    /// contributes, so changing any of them changes the challenge input.
    pub fn transcript(&self) -> (res: Transcript)
        ensures
            res.spec_label() == context_label(),
            res.spec_messages() == context_messages(*self),
    {
        let label: &str = "zkp-auth-schnorr-http-v1";
        let mut transcript = Transcript::new(label.as_bytes());
        transcript.append_message("service_id".as_bytes(), self.service_id.as_str().as_bytes());
        transcript.append_message("audience".as_bytes(), self.audience.as_str().as_bytes());
        transcript.append_message("method".as_bytes(), self.method.as_str().as_bytes());
        transcript.append_message("path".as_bytes(), self.path.as_str().as_bytes());
        transcript.append_message(
            "body_sha256".as_bytes(),
            self.body_sha256.as_str().as_bytes(),
        );
        transcript.append_message("nonce".as_bytes(), self.nonce.as_str().as_bytes());
        let timestamp = u64_decimal(self.timestamp_unix_secs);
        transcript.append_message("timestamp_unix_secs".as_bytes(), timestamp.as_slice());
        assert(transcript.spec_messages() =~= context_messages(*self));
        transcript
    }
}

} // verus!
