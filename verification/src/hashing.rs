//! Byte-level building blocks of a block hash: decimal text of integers,
//! lowercase hexadecimal text of bytes, and the SHA-256 digest.

use vstd::prelude::*;

verus! {

/// The ASCII digit that stands for `d`, for `d` below ten.
pub open spec fn decimal_digit(d: nat) -> u8 {
    (48 + d) as u8
}

/// The decimal text of `n`, most significant digit first, without leading
/// zeros; zero is the single digit `0`.
pub open spec fn decimal(n: nat) -> Seq<u8>
    decreases n,
{
    if n < 10 {
        seq![decimal_digit(n)]
    } else {
        decimal(n / 10).push(decimal_digit(n % 10))
    }
}

/// Appends the decimal text of `n` to `out`.
pub fn push_decimal(n: u128, out: &mut Vec<u8>)
    ensures
        final(out)@ == old(out)@ + decimal(n as nat),
    decreases n,
{
    if n >= 10 {
        push_decimal(n / 10, out);
    }
    let digit: u8 = (n % 10) as u8;
    out.push(48 + digit);
    assert(out@ =~= old(out)@ + decimal(n as nat));
}

/// The lowercase hexadecimal digit that stands for `nibble`, for `nibble`
/// below sixteen.
pub open spec fn hex_digit(nibble: int) -> char {
    seq!['0', '1', '2', '3', '4', '5', '6', '7', '8', '9', 'a', 'b', 'c', 'd', 'e', 'f'][nibble]
}

/// The lowercase hexadecimal text of `bytes`: two digits for each byte, the
/// high half first.
pub open spec fn hex_lower(bytes: Seq<u8>) -> Seq<char> {
    Seq::new(
        2 * bytes.len(),
        |i: int|
            if i % 2 == 0 {
                hex_digit(bytes[i / 2] as int / 16)
            } else {
                hex_digit(bytes[i / 2] as int % 16)
            },
    )
}

/// The SHA-256 digest of `input`.
pub uninterp spec fn sha256(input: Seq<u8>) -> Seq<u8>;

/// Calls `sha2::Sha256::digest` (the `Digest` trait's one-shot function) on
/// `input`. Trusted: the bytes returned are the SHA-256 digest of the input,
/// a function of the input alone, and there are 32 of them.
#[verifier::external_body]
pub(crate) fn sha256_digest(input: &[u8]) -> (digest: Vec<u8>)
    ensures
        digest@ == sha256(input@),
        digest@.len() == 32,
{
    <sha2::Sha256 as sha2::Digest>::digest(input).to_vec()
}

/// Calls `hex::encode` on `bytes`. Trusted: the text returned has two
/// lowercase hexadecimal digits for each byte, in order, the high half of a
/// byte before its low half.
#[verifier::external_body]
pub(crate) fn hex_encode(bytes: &[u8]) -> (text: String)
    ensures
        text@ == hex_lower(bytes@),
{
    hex::encode(bytes)
}

} // verus!
