//! The Fiat–Shamir transcript: a domain label and a list of framed messages
//! from which the challenge of a non-interactive proof is derived.
use vstd::prelude::*;
use vstd::string::StringSliceAdditionalSpecFns;
use crate::bytes::{
    append_bytes, concat_all, le_nat, lemma_concat_all_front, lemma_le_bytes_len,
    lemma_u64_le_injective, u64_le, u64_to_le_bytes,
};
use crate::group::{Commitment, PublicKey};
use crate::hashing::{sha512, sha512_digest};
use crate::scalar::{Scalar, group_order};

verus! {

/// A message framed for the transcript: the length of its label, the label,
/// the length of the message and the message, lengths as little-endian `u64`.
pub open spec fn frame_message(label: Seq<u8>, message: Seq<u8>) -> Seq<u8> {
    u64_le(label.len() as u64) + label + u64_le(message.len() as u64) + message
}

/// The domain separator that opens every challenge hash.
pub open spec fn challenge_domain() -> Seq<u8> {
    "zkp-auth-schnorr-fiat-shamir-v1".spec_bytes()
}

/// The bytes that are hashed into the challenge: the domain separator, the
/// length-prefixed transcript label, the public key, the commitment, then
/// every framed message in order.
pub open spec fn challenge_input(
    label: Seq<u8>,
    messages: Seq<Seq<u8>>,
    public_key: Seq<u8>,
    commitment: Seq<u8>,
) -> Seq<u8> {
    challenge_domain() + u64_le(label.len() as u64) + label + public_key + commitment
        + concat_all(messages)
}

/// The challenge scalar: the SHA-512 digest of the challenge input, read as a
/// little-endian integer and reduced modulo the group order.
pub open spec fn challenge_value(
    label: Seq<u8>,
    messages: Seq<Seq<u8>>,
    public_key: Seq<u8>,
    commitment: Seq<u8>,
) -> nat {
    le_nat(sha512_digest(challenge_input(label, messages, public_key, commitment)))
        % group_order()
}

/// The bytes of framed (label, message) pairs, one after another, as the
/// challenge hash takes in a transcript's messages.
pub open spec fn framed_stream(pairs: Seq<(Seq<u8>, Seq<u8>)>) -> Seq<u8> {
    concat_all(pairs.map_values(|p: (Seq<u8>, Seq<u8>)| frame_message(p.0, p.1)))
}

/// Every label and message is short enough for its length to fit a `u64`.
pub open spec fn lengths_fit_u64(pairs: Seq<(Seq<u8>, Seq<u8>)>) -> bool {
    forall|i: int|
        0 <= i < pairs.len() ==> #[trigger] pairs[i].0.len() <= u64::MAX && pairs[i].1.len()
            <= u64::MAX
}

/// A framed message is its two lengths (eight bytes each), its label and its
/// message.
proof fn lemma_frame_len(label: Seq<u8>, message: Seq<u8>)
    ensures
        frame_message(label, message).len() == 16 + label.len() + message.len(),
{
    lemma_le_bytes_len(label.len() as u64 as nat, 8);
    lemma_le_bytes_len(message.len() as u64 as nat, 8);
}

/// The framing is prefix-free: two lists of (label, message) pairs give the
/// same byte stream only if they are the same list, so no two different
/// message sequences feed the challenge hash the same bytes.
pub proof fn lemma_framing_prefix_free(a: Seq<(Seq<u8>, Seq<u8>)>, b: Seq<(Seq<u8>, Seq<u8>)>)
    requires
        lengths_fit_u64(a),
        lengths_fit_u64(b),
    ensures
        framed_stream(a) == framed_stream(b) <==> a == b,
    decreases a.len(),
{
    if framed_stream(a) == framed_stream(b) {
        let fa = a.map_values(|p: (Seq<u8>, Seq<u8>)| frame_message(p.0, p.1));
        let fb = b.map_values(|p: (Seq<u8>, Seq<u8>)| frame_message(p.0, p.1));
        if a.len() == 0 && b.len() == 0 {
            assert(a =~= b);
        } else if a.len() == 0 {
            lemma_concat_all_front(fb);
            lemma_frame_len(b[0].0, b[0].1);
            assert(concat_all(fa) =~= Seq::<u8>::empty());
        } else if b.len() == 0 {
            lemma_concat_all_front(fa);
            lemma_frame_len(a[0].0, a[0].1);
            assert(concat_all(fb) =~= Seq::<u8>::empty());
        } else {
            lemma_concat_all_front(fa);
            lemma_concat_all_front(fb);
            let stream = framed_stream(a);
            let (la, ma) = a[0];
            let (lb, mb) = b[0];
            assert(la.len() <= u64::MAX && ma.len() <= u64::MAX);
            assert(lb.len() <= u64::MAX && mb.len() <= u64::MAX);
            lemma_frame_len(la, ma);
            lemma_frame_len(lb, mb);
            lemma_le_bytes_len(la.len() as u64 as nat, 8);
            lemma_le_bytes_len(lb.len() as u64 as nat, 8);
            lemma_le_bytes_len(ma.len() as u64 as nat, 8);
            lemma_le_bytes_len(mb.len() as u64 as nat, 8);
            let rest_a = concat_all(fa.drop_first());
            let rest_b = concat_all(fb.drop_first());
            assert(stream == frame_message(la, ma) + rest_a);
            assert(stream == frame_message(lb, mb) + rest_b);
            assert(stream.subrange(0, 8) =~= u64_le(la.len() as u64));
            assert(stream.subrange(0, 8) =~= u64_le(lb.len() as u64));
            lemma_u64_le_injective(la.len() as u64, lb.len() as u64);
            let n = la.len() as int;
            assert(stream.subrange(8, 8 + n) =~= la);
            assert(stream.subrange(8, 8 + n) =~= lb);
            assert(stream.subrange(8 + n, 16 + n) =~= u64_le(ma.len() as u64));
            assert(stream.subrange(8 + n, 16 + n) =~= u64_le(mb.len() as u64));
            lemma_u64_le_injective(ma.len() as u64, mb.len() as u64);
            let k = ma.len() as int;
            assert(stream.subrange(16 + n, 16 + n + k) =~= ma);
            assert(stream.subrange(16 + n, 16 + n + k) =~= mb);
            assert(rest_a =~= stream.subrange(16 + n + k, stream.len() as int));
            assert(rest_b =~= stream.subrange(16 + n + k, stream.len() as int));
            let ta = a.drop_first();
            let tb = b.drop_first();
            assert(fa.drop_first() =~= ta.map_values(
                |p: (Seq<u8>, Seq<u8>)| frame_message(p.0, p.1),
            ));
            assert(fb.drop_first() =~= tb.map_values(
                |p: (Seq<u8>, Seq<u8>)| frame_message(p.0, p.1),
            ));
            assert(lengths_fit_u64(ta)) by {
                assert forall|i: int| 0 <= i < ta.len() implies #[trigger] ta[i].0.len()
                    <= u64::MAX && ta[i].1.len() <= u64::MAX by {
                    assert(ta[i] == a[i + 1]);
                }
            }
            assert(lengths_fit_u64(tb)) by {
                assert forall|i: int| 0 <= i < tb.len() implies #[trigger] tb[i].0.len()
                    <= u64::MAX && tb[i].1.len() <= u64::MAX by {
                    assert(tb[i] == b[i + 1]);
                }
            }
            lemma_framing_prefix_free(ta, tb);
            assert(a =~= b) by {
                assert(a[0] == b[0]);
                assert forall|i: int| 0 <= i < a.len() implies a[i] == b[i] by {
                    if i > 0 {
                        assert(a[i] == ta[i - 1]);
                        assert(b[i] == tb[i - 1]);
                    }
                }
            }
        }
    }
}

/// A transcript: its label and the framed messages appended so far.
#[derive(Clone, Debug)]
pub struct Transcript {
    label: Vec<u8>,
    messages: Vec<Vec<u8>>,
}

impl Default for Transcript {
    /// The transcript with an empty label and no messages.
    fn default() -> (res: Transcript)
        ensures
            res.spec_label() == Seq::<u8>::empty(),
            res.spec_messages() == Seq::<Seq<u8>>::empty(),
    {
        let res = Transcript { label: Vec::new(), messages: Vec::new() };
        assert(res.spec_messages() =~= Seq::<Seq<u8>>::empty());
        res
    }
}

impl Transcript {
    /// The label the transcript was made with.
    pub closed spec fn spec_label(&self) -> Seq<u8> {
        self.label@
    }

    /// The framed messages, in the order they were appended.
    pub closed spec fn spec_messages(&self) -> Seq<Seq<u8>> {
        self.messages@.map_values(|m: Vec<u8>| m@)
    }

    /// The challenge this transcript yields for a public key and commitment.
    pub open spec fn spec_challenge(&self, public_key: Seq<u8>, commitment: Seq<u8>) -> nat {
        challenge_value(self.spec_label(), self.spec_messages(), public_key, commitment)
    }

    /// An empty transcript with the given label.
    pub fn new(label: &[u8]) -> (res: Transcript)
        ensures
            res.spec_label() == label@,
            res.spec_messages() == Seq::<Seq<u8>>::empty(),
    {
        let mut copy: Vec<u8> = Vec::new();
        append_bytes(&mut copy, label);
        let res = Transcript { label: copy, messages: Vec::new() };
        assert(res.spec_messages() =~= Seq::<Seq<u8>>::empty());
        res
    }

    /// Appends `message` under `label`, framed by both lengths.
    pub fn append_message(&mut self, label: &[u8], message: &[u8])
        ensures
            final(self).spec_label() == old(self).spec_label(),
            final(self).spec_messages() == old(self).spec_messages().push(
                frame_message(label@, message@),
            ),
    {
        let mut framed: Vec<u8> = Vec::new();
        let label_len = u64_to_le_bytes(label.len() as u64);
        append_bytes(&mut framed, label_len.as_slice());
        append_bytes(&mut framed, label);
        let message_len = u64_to_le_bytes(message.len() as u64);
        append_bytes(&mut framed, message_len.as_slice());
        append_bytes(&mut framed, message);
        let ghost before = self.messages@;
        self.messages.push(framed);
        assert(self.messages@.map_values(|m: Vec<u8>| m@) =~= before.map_values(
            |m: Vec<u8>| m@,
        ).push(frame_message(label@, message@)));
    }

    /// The bytes hashed into the challenge for `public_key` and `commitment`.
    fn challenge_bytes(&self, public_key: &PublicKey, commitment: &Commitment) -> (res: Vec<u8>)
        ensures
            res@ == challenge_input(
                self.spec_label(),
                self.spec_messages(),
                public_key@,
                commitment@,
            ),
    {
        let mut input: Vec<u8> = Vec::new();
        let domain: &str = "zkp-auth-schnorr-fiat-shamir-v1";
        append_bytes(&mut input, domain.as_bytes());
        let label_len = u64_to_le_bytes(self.label.len() as u64);
        append_bytes(&mut input, label_len.as_slice());
        append_bytes(&mut input, self.label.as_slice());
        append_bytes(&mut input, public_key.as_bytes());
        append_bytes(&mut input, commitment.as_bytes());
        let ghost head = input@;
        let ghost parts = self.spec_messages();
        let n = self.messages.len();
        let mut i: usize = 0;
        assert(parts.take(0) =~= Seq::<Seq<u8>>::empty());
        assert(input@ =~= head + concat_all(parts.take(0)));
        while i < n
            invariant
                n == self.messages@.len(),
                parts == self.spec_messages(),
                parts.len() == n,
                i <= n,
                input@ == head + concat_all(parts.take(i as int)),
            decreases n - i,
        {
            append_bytes(&mut input, self.messages[i].as_slice());
            assert(parts.take(i + 1).drop_last() =~= parts.take(i as int));
            assert(parts[i as int] == self.messages@[i as int]@);
            i = i + 1;
        }
        assert(parts.take(n as int) =~= parts);
        input
    }

    /// The Fiat–Shamir challenge for `public_key` and `commitment`.
    pub(crate) fn challenge_scalar(&self, public_key: &PublicKey, commitment: &Commitment) -> (res:
        Scalar)
        ensures
            res@ == self.spec_challenge(public_key@, commitment@),
    {
        let input = self.challenge_bytes(public_key, commitment);
        let digest = sha512(input.as_slice());
        Scalar::from_bytes_mod_order_wide(&digest)
    }
}

/// Transcripts whose messages were appended as the (label, message) pairs
/// `a` and `b` feed the challenge hash the same message bytes exactly when
/// the two lists of appends are the same.
pub proof fn lemma_transcript_messages_prefix_free(
    first: Transcript,
    second: Transcript,
    a: Seq<(Seq<u8>, Seq<u8>)>,
    b: Seq<(Seq<u8>, Seq<u8>)>,
)
    requires
        first.spec_messages() == a.map_values(|p: (Seq<u8>, Seq<u8>)| frame_message(p.0, p.1)),
        second.spec_messages() == b.map_values(|p: (Seq<u8>, Seq<u8>)| frame_message(p.0, p.1)),
        lengths_fit_u64(a),
        lengths_fit_u64(b),
    ensures
        concat_all(first.spec_messages()) == concat_all(second.spec_messages()) <==> a == b,
{
    lemma_framing_prefix_free(a, b);
}

/// Every appended message is hashed: appending a framed message to a
/// transcript extends the challenge input by exactly that message.
pub proof fn lemma_challenge_input_takes_every_message(
    label: Seq<u8>,
    messages: Seq<Seq<u8>>,
    message: Seq<u8>,
    public_key: Seq<u8>,
    commitment: Seq<u8>,
)
    ensures
        challenge_input(label, messages.push(message), public_key, commitment) == challenge_input(
            label,
            messages,
            public_key,
            commitment,
        ) + message,
{
    assert(messages.push(message).drop_last() =~= messages);
    assert(challenge_input(label, messages.push(message), public_key, commitment) =~= challenge_input(
        label,
        messages,
        public_key,
        commitment,
    ) + message);
}

/// The challenge input determines what it was made from: for 32-byte keys
/// and commitments, two equal inputs have the same label, the same key, the
/// same commitment and the same message bytes.
pub proof fn lemma_challenge_input_injective(
    label1: Seq<u8>,
    messages1: Seq<Seq<u8>>,
    public_key1: Seq<u8>,
    commitment1: Seq<u8>,
    label2: Seq<u8>,
    messages2: Seq<Seq<u8>>,
    public_key2: Seq<u8>,
    commitment2: Seq<u8>,
)
    requires
        label1.len() <= u64::MAX,
        label2.len() <= u64::MAX,
        public_key1.len() == 32,
        public_key2.len() == 32,
        commitment1.len() == 32,
        commitment2.len() == 32,
        challenge_input(label1, messages1, public_key1, commitment1) == challenge_input(
            label2,
            messages2,
            public_key2,
            commitment2,
        ),
    ensures
        label1 == label2,
        public_key1 == public_key2,
        commitment1 == commitment2,
        concat_all(messages1) == concat_all(messages2),
{
    let input = challenge_input(label1, messages1, public_key1, commitment1);
    let d = challenge_domain().len() as int;
    lemma_le_bytes_len(label1.len() as u64 as nat, 8);
    lemma_le_bytes_len(label2.len() as u64 as nat, 8);
    assert(input.subrange(d, d + 8) =~= u64_le(label1.len() as u64));
    assert(input.subrange(d, d + 8) =~= u64_le(label2.len() as u64));
    lemma_u64_le_injective(label1.len() as u64, label2.len() as u64);
    let n = label1.len() as int;
    assert(input.subrange(d + 8, d + 8 + n) =~= label1);
    assert(input.subrange(d + 8, d + 8 + n) =~= label2);
    assert(input.subrange(d + 8 + n, d + 40 + n) =~= public_key1);
    assert(input.subrange(d + 8 + n, d + 40 + n) =~= public_key2);
    assert(input.subrange(d + 40 + n, d + 72 + n) =~= commitment1);
    assert(input.subrange(d + 40 + n, d + 72 + n) =~= commitment2);
    assert(input.subrange(d + 72 + n, input.len() as int) =~= concat_all(messages1));
    assert(input.subrange(d + 72 + n, input.len() as int) =~= concat_all(messages2));
}

/// Transcripts whose appends differ anywhere, in any label or message at
/// any position, give different challenge inputs for the same label, key and
/// commitment.
pub proof fn lemma_challenge_input_binds_appends(
    label: Seq<u8>,
    a: Seq<(Seq<u8>, Seq<u8>)>,
    b: Seq<(Seq<u8>, Seq<u8>)>,
    public_key: Seq<u8>,
    commitment: Seq<u8>,
)
    requires
        label.len() <= u64::MAX,
        public_key.len() == 32,
        commitment.len() == 32,
        lengths_fit_u64(a),
        lengths_fit_u64(b),
    ensures
        challenge_input(
            label,
            a.map_values(|p: (Seq<u8>, Seq<u8>)| frame_message(p.0, p.1)),
            public_key,
            commitment,
        ) == challenge_input(
            label,
            b.map_values(|p: (Seq<u8>, Seq<u8>)| frame_message(p.0, p.1)),
            public_key,
            commitment,
        ) <==> a == b,
{
    let fa = a.map_values(|p: (Seq<u8>, Seq<u8>)| frame_message(p.0, p.1));
    let fb = b.map_values(|p: (Seq<u8>, Seq<u8>)| frame_message(p.0, p.1));
    lemma_framing_prefix_free(a, b);
    if challenge_input(label, fa, public_key, commitment) == challenge_input(
        label,
        fb,
        public_key,
        commitment,
    ) {
        lemma_challenge_input_injective(
            label,
            fa,
            public_key,
            commitment,
            label,
            fb,
            public_key,
            commitment,
        );
    }
}

} // verus!

