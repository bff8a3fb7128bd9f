//! Byte-level encodings shared by the transcript, the key types and the
//! replay store: little-endian integers, decimal digits, concatenation.
use vstd::prelude::*;

verus! {

/// The natural number that a little-endian byte string denotes.
pub open spec fn le_nat(bytes: Seq<u8>) -> nat
    decreases bytes.len(),
{
    if bytes.len() == 0 {
        0
    } else {
        bytes[0] as nat + 256 * le_nat(bytes.drop_first())
    }
}

/// The `width` least significant bytes of `n`, least significant first.
pub open spec fn le_bytes(n: nat, width: nat) -> Seq<u8>
    decreases width,
{
    if width == 0 {
        Seq::empty()
    } else {
        seq![(n % 256) as u8] + le_bytes(n / 256, (width - 1) as nat)
    }
}

/// The eight-byte little-endian encoding of a `u64`.
pub open spec fn u64_le(n: u64) -> Seq<u8> {
    le_bytes(n as nat, 8)
}

/// The ASCII decimal representation of `n`, without sign or leading zeros.
pub open spec fn decimal_digits(n: nat) -> Seq<u8>
    decreases n,
{
    if n < 10 {
        seq![(48 + n) as u8]
    } else {
        decimal_digits(n / 10).push((48 + n % 10) as u8)
    }
}

/// All byte strings of `parts`, one after another.
pub open spec fn concat_all(parts: Seq<Seq<u8>>) -> Seq<u8>
    decreases parts.len(),
{
    if parts.len() == 0 {
        Seq::empty()
    } else {
        concat_all(parts.drop_last()) + parts.last()
    }
}

/// 256 to the power `width`: the number of values `width` bytes can hold.
pub open spec fn pow256(width: nat) -> nat
    decreases width,
{
    if width == 0 {
        1
    } else {
        256 * pow256((width - 1) as nat)
    }
}

/// `le_bytes` yields exactly `width` bytes.
pub proof fn lemma_le_bytes_len(n: nat, width: nat)
    ensures
        le_bytes(n, width).len() == width,
    decreases width,
{
    if width > 0 {
        lemma_le_bytes_len(n / 256, (width - 1) as nat);
    }
}

/// Two values that fit in `width` bytes have the same little-endian bytes
/// only if they are equal.
pub proof fn lemma_le_bytes_injective(a: nat, b: nat, width: nat)
    requires
        le_bytes(a, width) == le_bytes(b, width),
        a < pow256(width),
        b < pow256(width),
    ensures
        a == b,
    decreases width,
{
    if width > 0 {
        let p = pow256((width - 1) as nat);
        let ta = le_bytes(a / 256, (width - 1) as nat);
        let tb = le_bytes(b / 256, (width - 1) as nat);
        assert(le_bytes(a, width) == seq![(a % 256) as u8] + ta);
        assert(le_bytes(b, width) == seq![(b % 256) as u8] + tb);
        assert(le_bytes(a, width)[0] == (a % 256) as u8);
        assert(le_bytes(b, width)[0] == (b % 256) as u8);
        assert(ta =~= le_bytes(a, width).drop_first());
        assert(tb =~= le_bytes(b, width).drop_first());
        assert(a / 256 < p) by (nonlinear_arith)
            requires
                a < 256 * p,
        ;
        assert(b / 256 < p) by (nonlinear_arith)
            requires
                b < 256 * p,
        ;
        lemma_le_bytes_injective(a / 256, b / 256, (width - 1) as nat);
        assert(a % 256 == b % 256);
    }
}

/// Distinct `u64` values have distinct little-endian encodings.
pub proof fn lemma_u64_le_injective(a: u64, b: u64)
    requires
        u64_le(a) == u64_le(b),
    ensures
        a == b,
{
    assert(pow256(8) == 0x1_0000_0000_0000_0000nat) by {
        reveal_with_fuel(pow256, 9);
    }
    lemma_le_bytes_injective(a as nat, b as nat, 8);
}

/// The decimal text of a number has at least one digit, at least two from
/// ten on, and ends in the number's last digit.
pub proof fn lemma_decimal_digits_shape(n: nat)
    ensures
        decimal_digits(n).len() >= 1,
        n >= 10 ==> decimal_digits(n).len() >= 2,
        decimal_digits(n).last() == (48 + n % 10) as u8,
    decreases n,
{
    if n >= 10 {
        lemma_decimal_digits_shape(n / 10);
    }
}

/// Distinct numbers have distinct decimal texts.
pub proof fn lemma_decimal_digits_injective(a: nat, b: nat)
    requires
        decimal_digits(a) == decimal_digits(b),
    ensures
        a == b,
    decreases a,
{
    lemma_decimal_digits_shape(a);
    lemma_decimal_digits_shape(b);
    if a >= 10 && b >= 10 {
        assert(decimal_digits(a).drop_last() =~= decimal_digits(a / 10));
        assert(decimal_digits(b).drop_last() =~= decimal_digits(b / 10));
        lemma_decimal_digits_injective(a / 10, b / 10);
    }
}

/// A concatenation starts with its first part.
pub proof fn lemma_concat_all_front(parts: Seq<Seq<u8>>)
    requires
        parts.len() > 0,
    ensures
        concat_all(parts) == parts[0] + concat_all(parts.drop_first()),
    decreases parts.len(),
{
    if parts.len() == 1 {
        assert(parts.drop_first() =~= Seq::<Seq<u8>>::empty());
        assert(parts.drop_last() =~= Seq::<Seq<u8>>::empty());
        assert(concat_all(parts) =~= parts[0] + concat_all(parts.drop_first()));
    } else {
        let init = parts.drop_last();
        lemma_concat_all_front(init);
        assert(init.drop_first() =~= parts.drop_first().drop_last());
        assert(parts.drop_first().last() == parts.last());
        assert(concat_all(parts) =~= parts[0] + concat_all(parts.drop_first()));
    }
}

/// Appends every byte of `tail` to `out`.
pub(crate) fn append_bytes(out: &mut Vec<u8>, tail: &[u8])
    ensures
        final(out)@ == old(out)@ + tail@,
{
    let ghost start = out@;
    let n = tail.len();
    let mut i: usize = 0;
    while i < n
        invariant
            n == tail@.len(),
            i <= n,
            out@ == start + tail@.subrange(0, i as int),
        decreases n - i,
    {
        out.push(tail[i]);
        i = i + 1;
        assert(out@ =~= start + tail@.subrange(0, i as int));
    }
    assert(tail@.subrange(0, n as int) =~= tail@);
}

/// The little-endian bytes of `n`, as `u64::to_le_bytes` lays them out.
pub(crate) fn u64_to_le_bytes(n: u64) -> (res: Vec<u8>)
    ensures
        res@ == u64_le(n),
        res@.len() == 8,
{
    let mut out: Vec<u8> = Vec::new();
    let mut rest: u64 = n;
    let mut i: usize = 0;
    while i < 8
        invariant
            i <= 8,
            out@.len() == i,
            out@ + le_bytes(rest as nat, (8 - i) as nat) == le_bytes(n as nat, 8),
        decreases 8 - i,
    {
        let byte: u8 = (rest % 256) as u8;
        let ghost before = out@;
        let ghost r = rest;
        out.push(byte);
        rest = rest / 256;
        assert(le_bytes(r as nat, (8 - i) as nat) == seq![(r as nat % 256) as u8] + le_bytes(
            r as nat / 256,
            (8 - i - 1) as nat,
        ));
        assert(out@ + le_bytes(rest as nat, (8 - i - 1) as nat) =~= before + le_bytes(
            r as nat,
            (8 - i) as nat,
        ));
        i = i + 1;
    }
    assert(le_bytes(rest as nat, 0) =~= Seq::<u8>::empty());
    assert(out@ + Seq::<u8>::empty() =~= out@);
    out
}

/// The ASCII decimal digits of `n`, as `u64::to_string` writes them.
pub(crate) fn u64_decimal(n: u64) -> (res: Vec<u8>)
    ensures
        res@ == decimal_digits(n as nat),
    decreases n,
{
    if n < 10 {
        let mut out: Vec<u8> = Vec::new();
        let digit: u8 = n as u8;
        out.push(48u8 + digit);
        assert(out@ =~= seq![(48 + n) as u8]);
        out
    } else {
        let mut out = u64_decimal(n / 10);
        let digit: u8 = (n % 10) as u8;
        out.push(48u8 + digit);
        out
    }
}

/// Whether two 32-byte strings are equal.
pub(crate) fn bytes32_eq(a: &[u8; 32], b: &[u8; 32]) -> (res: bool)
    ensures
        res == (a@ == b@),
{
    let mut i: usize = 0;
    while i < 32
        invariant
            i <= 32,
            a@.len() == 32,
            b@.len() == 32,
            forall|j: int| 0 <= j < i ==> a@[j] == b@[j],
        decreases 32 - i,
    {
        if a[i] != b[i] {
            return false;
        }
        i = i + 1;
    }
    assert(a@ =~= b@);
    true
}

} // verus!
