//! The wire format of a text field: a count of four bytes, least significant
//! first, followed by that many bytes of UTF-8.

use vstd::arithmetic::div_mod::lemma_fundamental_div_mod_converse;
use vstd::prelude::*;
use vstd::slice::slice_subrange;
use vstd::utf8::{
    decode_utf8, decode_utf8_encode_utf8, encode_utf8, encode_utf8_decode_utf8,
    encode_utf8_valid_utf8, valid_utf8,
};

verus! {

/// The number of bytes of the count in front of a text.
pub const LENGTH_PREFIX_BYTES: usize = 4;

/// The four bytes that stand for the count `n`, least significant first.
pub open spec fn length_prefix(n: nat) -> Seq<u8>
    recommends
        n <= u32::MAX,
{
    seq![
        (n % 256) as u8,
        (n / 256 % 256) as u8,
        (n / 65536 % 256) as u8,
        (n / 16777216 % 256) as u8,
    ]
}

/// The count that the first four bytes of `bytes` stand for.
pub open spec fn prefixed_length(bytes: Seq<u8>) -> int
    recommends
        bytes.len() >= 4,
{
    bytes[0] + 256 * bytes[1] + 65536 * bytes[2] + 16777216 * bytes[3]
}

/// The bytes that stand for `text`: the length of its UTF-8 form, then that
/// form.
pub open spec fn text_encoding(text: Seq<char>) -> Seq<u8>
    recommends
        encode_utf8(text).len() <= u32::MAX,
{
    length_prefix(encode_utf8(text).len()) + encode_utf8(text)
}

/// The text that stands at the front of `bytes`, with the number of bytes it
/// takes up, or nothing where `bytes` does not begin with a text: where the
/// count is cut short, announces more bytes than follow, or is followed by
/// bytes that are not UTF-8.
pub open spec fn text_decoding(bytes: Seq<u8>) -> Option<(Seq<char>, int)> {
    if bytes.len() < 4 {
        None
    } else if bytes.len() < 4 + prefixed_length(bytes) {
        None
    } else if !valid_utf8(bytes.subrange(4, 4 + prefixed_length(bytes))) {
        None
    } else {
        Some(
            (
                decode_utf8(bytes.subrange(4, 4 + prefixed_length(bytes))),
                4 + prefixed_length(bytes),
            ),
        )
    }
}

/// The four digits to the base 256 of a number that is written with them.
proof fn digits_of_count(b0: int, b1: int, b2: int, b3: int)
    requires
        0 <= b0 < 256,
        0 <= b1 < 256,
        0 <= b2 < 256,
        0 <= b3 < 256,
    ensures
        0 <= b0 + 256 * b1 + 65536 * b2 + 16777216 * b3 <= u32::MAX,
        (b0 + 256 * b1 + 65536 * b2 + 16777216 * b3) % 256 == b0,
        (b0 + 256 * b1 + 65536 * b2 + 16777216 * b3) / 256 % 256 == b1,
        (b0 + 256 * b1 + 65536 * b2 + 16777216 * b3) / 65536 % 256 == b2,
        (b0 + 256 * b1 + 65536 * b2 + 16777216 * b3) / 16777216 % 256 == b3,
{
    let v = b0 + 256 * b1 + 65536 * b2 + 16777216 * b3;
    let q1 = b1 + 256 * b2 + 65536 * b3;
    let q2 = b2 + 256 * b3;
    lemma_fundamental_div_mod_converse(v, 256, q1, b0);
    lemma_fundamental_div_mod_converse(q1, 256, q2, b1);
    lemma_fundamental_div_mod_converse(v, 65536, q2, b0 + 256 * b1);
    lemma_fundamental_div_mod_converse(q2, 256, b3, b2);
    lemma_fundamental_div_mod_converse(v, 16777216, b3, b0 + 256 * b1 + 65536 * b2);
    lemma_fundamental_div_mod_converse(b3, 256, 0, b3);
}

/// A number below 2^32 is written with its four digits to the base 256.
proof fn count_of_digits(n: int)
    requires
        0 <= n <= u32::MAX,
    ensures
        n == n % 256 + 256 * (n / 256 % 256) + 65536 * (n / 65536 % 256) + 16777216 * (n
            / 16777216 % 256),
{
    let q1 = n / 256;
    let q2 = q1 / 256;
    let q3 = q2 / 256;
    assert(n == 256 * q1 + n % 256);
    assert(q1 == 256 * q2 + q1 % 256);
    assert(q2 == 256 * q3 + q2 % 256);
    assert(0 <= q3 < 256);
    lemma_fundamental_div_mod_converse(n, 65536, q2, n % 256 + 256 * (q1 % 256));
    lemma_fundamental_div_mod_converse(
        n,
        16777216,
        q3,
        n % 256 + 256 * (q1 % 256) + 65536 * (q2 % 256),
    );
    lemma_fundamental_div_mod_converse(q3, 256, 0, q3);
}

/// A count that fits into four bytes is read back from them unchanged,
/// whatever follows them.
pub proof fn prefixed_length_inverts_length_prefix(n: nat, tail: Seq<u8>)
    requires
        n <= u32::MAX,
    ensures
        length_prefix(n).len() == 4,
        prefixed_length(length_prefix(n) + tail) == n,
{
    let bytes = length_prefix(n) + tail;
    assert(bytes[0] == length_prefix(n)[0]);
    assert(bytes[1] == length_prefix(n)[1]);
    assert(bytes[2] == length_prefix(n)[2]);
    assert(bytes[3] == length_prefix(n)[3]);
    count_of_digits(n as int);
}

/// Four bytes are the count of what they stand for, and that count fits into
/// four bytes.
pub proof fn length_prefix_inverts_prefixed_length(bytes: Seq<u8>)
    requires
        bytes.len() >= 4,
    ensures
        prefixed_length(bytes) <= u32::MAX,
        length_prefix(prefixed_length(bytes) as nat) == bytes.subrange(0, 4),
{
    digits_of_count(bytes[0] as int, bytes[1] as int, bytes[2] as int, bytes[3] as int);
    assert(length_prefix(prefixed_length(bytes) as nat) =~= bytes.subrange(0, 4));
}

/// A text whose UTF-8 form can be counted in four bytes is read back from its
/// encoding unchanged, whatever follows the encoding.
pub proof fn text_decoding_inverts_encoding(text: Seq<char>, tail: Seq<u8>)
    requires
        encode_utf8(text).len() <= u32::MAX,
    ensures
        text_encoding(text).len() == 4 + encode_utf8(text).len(),
        text_decoding(text_encoding(text) + tail) == Some(
            (text, 4 + encode_utf8(text).len() as int),
        ),
{
    let body = encode_utf8(text);
    let n = body.len() as int;
    let bytes = text_encoding(text) + tail;
    prefixed_length_inverts_length_prefix(n as nat, body + tail);
    assert(bytes =~= length_prefix(n as nat) + (body + tail));
    assert(bytes.subrange(4, 4 + n) =~= body);
    encode_utf8_valid_utf8(text);
    encode_utf8_decode_utf8(text);
}

/// Where a text is read from the front of `bytes`, the bytes it takes up are
/// exactly its encoding.
pub proof fn text_encoding_inverts_decoding(bytes: Seq<u8>)
    requires
        text_decoding(bytes) is Some,
    ensures
        text_decoding(bytes)->Some_0.1 <= bytes.len(),
        encode_utf8(text_decoding(bytes)->Some_0.0).len() + 4 == text_decoding(bytes)->Some_0.1,
        encode_utf8(text_decoding(bytes)->Some_0.0).len() <= u32::MAX,
        text_encoding(text_decoding(bytes)->Some_0.0) == bytes.subrange(
            0,
            text_decoding(bytes)->Some_0.1,
        ),
{
    let n = prefixed_length(bytes);
    let body = bytes.subrange(4, 4 + n);
    length_prefix_inverts_prefixed_length(bytes);
    decode_utf8_encode_utf8(body);
    assert(text_encoding(decode_utf8(body)) =~= bytes.subrange(0, 4 + n));
}

/// Calls `core::str::from_utf8`. Believed of it, as its documentation says:
/// it succeeds on exactly the byte strings that are UTF-8, and the text it
/// returns has those bytes as its UTF-8 form.
#[verifier::external_body]
fn utf8_text<'a>(bytes: &'a [u8]) -> (text: Option<&'a str>)
    ensures
        text is Some <==> valid_utf8(bytes@),
        text matches Some(s) ==> encode_utf8(s@) == bytes@,
{
    match core::str::from_utf8(bytes) {
        Ok(s) => Some(s),
        Err(_) => None,
    }
}

/// The number of bytes of the UTF-8 form of `text`.
pub fn byte_len(text: &str) -> (n: usize)
    ensures
        n == encode_utf8(text@).len(),
{
    text.as_bytes().len()
}

/// Appends the four bytes of the count `n` to `out`.
pub fn write_length(out: &mut Vec<u8>, n: u32)
    ensures
        final(out)@ == old(out)@ + length_prefix(n as nat),
{
    out.push((n % 256) as u8);
    out.push((n / 256 % 256) as u8);
    out.push((n / 65536 % 256) as u8);
    out.push((n / 16777216 % 256) as u8);
    assert(out@ =~= old(out)@ + length_prefix(n as nat));
}

/// Reads the count whose four bytes stand at `at`.
fn read_length(bytes: &[u8], at: usize) -> (n: u32)
    requires
        at + 4 <= bytes.len(),
    ensures
        n == prefixed_length(bytes@.skip(at as int)),
{
    let b0: u32 = bytes[at] as u32;
    let b1: u32 = bytes[at + 1] as u32;
    let b2: u32 = bytes[at + 2] as u32;
    let b3: u32 = bytes[at + 3] as u32;
    b0 + 256 * b1 + 65536 * b2 + 16777216 * b3
}

/// Appends the encoding of `text` to `out`.
pub fn write_text(out: &mut Vec<u8>, text: &str)
    requires
        encode_utf8(text@).len() <= u32::MAX,
    ensures
        final(out)@ == old(out)@ + text_encoding(text@),
{
    let body = text.as_bytes();
    let n: usize = body.len();
    write_length(out, n as u32);
    let mut i: usize = 0;
    while i < n
        invariant
            i <= n,
            n == body@.len(),
            out@ == old(out)@ + length_prefix(n as nat) + body@.take(i as int),
        decreases n - i,
    {
        out.push(body[i]);
        i += 1;
        assert(out@ =~= old(out)@ + length_prefix(n as nat) + body@.take(i as int));
    }
    assert(body@.take(n as int) =~= body@);
    assert(out@ =~= old(out)@ + text_encoding(text@));
}

/// Reads the text that stands at `at`, and says where the bytes after it
/// begin.
pub fn read_text<'a>(bytes: &'a [u8], at: usize) -> (found: Option<(&'a str, usize)>)
    requires
        at <= bytes.len(),
    ensures
        match text_decoding(bytes@.skip(at as int)) {
            Some((text, used)) => found matches Some((s, next)) && s@ == text && next == at + used,
            None => found is None,
        },
{
    let rest: usize = bytes.len() - at;
    if rest < LENGTH_PREFIX_BYTES {
        return None;
    }
    let n: usize = read_length(bytes, at) as usize;
    if rest - LENGTH_PREFIX_BYTES < n {
        return None;
    }
    let body = slice_subrange(bytes, at + LENGTH_PREFIX_BYTES, at + LENGTH_PREFIX_BYTES + n);
    assert(body@ =~= bytes@.skip(at as int).subrange(4, 4 + n));
    match utf8_text(body) {
        Some(s) => {
            proof {
                encode_utf8_decode_utf8(s@);
            }
            Some((s, at + LENGTH_PREFIX_BYTES + n))
        },
        None => None,
    }
}

} // verus!
