//! The thumbprint of a certificate: the SHA-1 digest of its DER encoding,
//! written as forty upper-case hexadecimal digits.

use sha1::{Digest, Sha1};
use vstd::prelude::*;
use vstd::string::{StrSliceExecFns, StringExecFns};

verus! {

/// The SHA-1 digest of `data`, as the `sha1` crate computes it.
pub uninterp spec fn sha1_digest(data: Seq<u8>) -> Seq<u8>;

/// The number of bytes in a SHA-1 digest.
pub const DIGEST_LEN: usize = 20;

/// The number of characters in a thumbprint.
pub const THUMBPRINT_LEN: usize = 40;

/// The upper-case hexadecimal digit of a value below sixteen.
pub open spec fn hex_digit(nibble: int) -> char {
    if nibble < 10 {
        (nibble + 48) as char
    } else {
        (nibble + 55) as char
    }
}

/// Two upper-case hexadecimal digits for each byte, the high half first.
pub open spec fn hex_upper(bytes: Seq<u8>) -> Seq<char> {
    Seq::new(
        2 * bytes.len(),
        |i: int|
            if i % 2 == 0 {
                hex_digit(bytes[i / 2] as int / 16)
            } else {
                hex_digit(bytes[i / 2] as int % 16)
            },
    )
}

/// The thumbprint of the certificate whose DER encoding is `der`.
pub open spec fn thumbprint_of(der: Seq<u8>) -> Seq<char> {
    hex_upper(sha1_digest(der))
}

/// Whether `c` is one of `0`..`9`, `A`..`F`.
pub open spec fn is_upper_hex(c: char) -> bool {
    ('0' <= c && c <= '9') || ('A' <= c && c <= 'F')
}

/// Calls `Sha1::digest` of the `sha1` crate: the result is the SHA-1 digest
/// of `data`, which has twenty bytes.
#[verifier::external_body]
fn sha1(data: &[u8]) -> (digest: Vec<u8>)
    ensures
        digest@ == sha1_digest(data@),
        digest@.len() == DIGEST_LEN,
{
    Sha1::digest(data).to_vec()
}

/// The sixteen digits, in order of their value.
pub const HEX_DIGITS: &'static str = "0123456789ABCDEF";

/// The digit of `nibble`, as text.
fn hex_text(nibble: u8) -> (digit: &'static str)
    requires
        nibble < 16,
    ensures
        digit@ == seq![hex_digit(nibble as int)],
{
    proof {
        reveal_strlit("0123456789ABCDEF");
    }
    let from = nibble as usize;
    HEX_DIGITS.substring_ascii(from, from + 1)
}

/// Writes `bytes` in upper-case hexadecimal.
pub fn to_hex_upper(bytes: &[u8]) -> (text: String)
    ensures
        text@ == hex_upper(bytes@),
{
    let mut text = String::new();
    let mut i: usize = 0;
    while i < bytes.len()
        invariant
            i <= bytes.len(),
            text@ == hex_upper(bytes@.take(i as int)),
        decreases bytes.len() - i,
    {
        let byte = bytes[i];
        text.append(hex_text(byte / 16));
        text.append(hex_text(byte % 16));
        assert(bytes@.take(i + 1) == bytes@.take(i as int).push(byte));
        i += 1;
    }
    assert(bytes@.take(i as int) == bytes@);
    text
}

/// The thumbprint of a certificate, from its DER encoding.
pub fn compute(cert_der: &[u8]) -> (thumbprint: String)
    ensures
        thumbprint@ == thumbprint_of(cert_der@),
        thumbprint@.len() == THUMBPRINT_LEN,
        forall|i: int| 0 <= i < thumbprint@.len() ==> is_upper_hex(#[trigger] thumbprint@[i]),
{
    let digest = sha1(cert_der);
    proof {
        lemma_hex_upper_digits(digest@);
    }
    to_hex_upper(digest.as_slice())
}

/// Every character of a hexadecimal rendering is an upper-case hexadecimal
/// digit, and there are two of them for each byte.
pub proof fn lemma_hex_upper_digits(bytes: Seq<u8>)
    ensures
        hex_upper(bytes).len() == 2 * bytes.len(),
        forall|i: int|
            0 <= i < hex_upper(bytes).len() ==> is_upper_hex(#[trigger] hex_upper(bytes)[i]),
{
}

/// The value of an upper-case hexadecimal digit.
pub open spec fn hex_value(c: char) -> int {
    if c <= '9' {
        c as int - 48
    } else {
        c as int - 55
    }
}

/// The hexadecimal rendering tells the bytes apart: two byte strings are
/// written alike only if they are the same.
pub proof fn hex_upper_injective(a: Seq<u8>, b: Seq<u8>)
    requires
        hex_upper(a) == hex_upper(b),
    ensures
        a == b,
{
    assert(hex_upper(a).len() == 2 * a.len());
    assert(hex_upper(b).len() == 2 * b.len());
    assert forall|k: int| 0 <= k < a.len() implies a[k] == b[k] by {
        assert(hex_value(hex_upper(a)[2 * k]) == a[k] as int / 16);
        assert(hex_value(hex_upper(a)[2 * k + 1]) == a[k] as int % 16);
        assert(hex_value(hex_upper(b)[2 * k]) == b[k] as int / 16);
        assert(hex_value(hex_upper(b)[2 * k + 1]) == b[k] as int % 16);
    }
    assert(a =~= b);
}

/// The thumbprint is a function of the DER bytes: equal encodings have equal
/// thumbprints.
pub proof fn thumbprint_deterministic(first: Seq<u8>, second: Seq<u8>)
    requires
        first == second,
    ensures
        thumbprint_of(first) == thumbprint_of(second),
{
}

/// Two encodings have the same thumbprint exactly when they have the same
/// SHA-1 digest: the rendering in hexadecimal loses nothing.
pub proof fn thumbprint_differs_with_digest(first: Seq<u8>, second: Seq<u8>)
    ensures
        thumbprint_of(first) == thumbprint_of(second) <==> sha1_digest(first) == sha1_digest(
            second,
        ),
{
    if thumbprint_of(first) == thumbprint_of(second) {
        hex_upper_injective(sha1_digest(first), sha1_digest(second));
    }
}

} // verus!
