//! Text helpers: lower-case hexadecimal (the `hex` crate), Unicode upper
//! case (std) and comparisons of strings.
use vstd::prelude::*;

verus! {

/// The lower-case hexadecimal digit for a value below sixteen.
pub open spec fn hex_digit(v: nat) -> char {
    if v < 10 {
        (48 + v) as char
    } else {
        (87 + v) as char
    }
}

/// The lower-case hexadecimal text of `bytes`: two digits per byte, the high
/// nibble first.
pub open spec fn hex_lower(bytes: Seq<u8>) -> Seq<char>
    decreases bytes.len(),
{
    if bytes.len() == 0 {
        Seq::empty()
    } else {
        seq![hex_digit(bytes[0] as nat / 16), hex_digit(bytes[0] as nat % 16)] + hex_lower(
            bytes.drop_first(),
        )
    }
}

/// The Unicode upper-case mapping of `text`, as `str::to_uppercase` applies it.
pub uninterp spec fn unicode_uppercase(text: Seq<char>) -> Seq<char>;

/// `hex::encode`: the lower-case hexadecimal text of `data`.
#[verifier::external_body]
pub(crate) fn hex_encode(data: &[u8]) -> (res: String)
    ensures
        res@ == hex_lower(data@),
{
    hex::encode(data)
}

/// `str::to_uppercase`: `text` with every character mapped to upper case.
#[verifier::external_body]
pub(crate) fn to_uppercase(text: &str) -> (res: String)
    ensures
        res@ == unicode_uppercase(text@),
{
    text.to_uppercase()
}

/// Whether `a` holds the same characters as `b`.
pub(crate) fn string_eq_str(a: &String, b: &str) -> (res: bool)
    ensures
        res == (a@ == b@),
{
    let owned: String = b.to_owned();
    *a == owned
}

} // verus!
