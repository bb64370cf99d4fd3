//! Byte encodings and the signature primitives that login relies on.
use base64::Engine;
use ed25519_dalek::Verifier;
use sha2::Digest;
use vstd::prelude::*;
use vstd::string::StrSliceExecFns;
use vstd::utf8::{decode_utf8, encode_utf8, valid_utf8};

verus! {

/// The hexadecimal digits, upper case.
pub const HEX_DIGITS: &'static str = "0123456789ABCDEF";

/// The upper-case hexadecimal digit for a number below sixteen.
pub open spec fn upper_digit(n: u8) -> char {
    HEX_DIGITS@[n as int]
}

/// Bytes in upper-case hexadecimal, two digits per byte, high digit first (how `{:X}` prints a
/// digest).
pub open spec fn upper_hex(bytes: Seq<u8>) -> Seq<char>
    decreases bytes.len(),
{
    if bytes.len() == 0 {
        Seq::empty()
    } else {
        upper_hex(bytes.drop_last()) + seq![upper_digit(bytes.last() / 16), upper_digit(bytes.last() % 16)]
    }
}

/// Writes bytes in upper-case hexadecimal.
pub fn to_upper_hex(bytes: &[u8]) -> (res: String)
    ensures
        res@ == upper_hex(bytes@),
{
    proof {
        reveal_strlit("0123456789ABCDEF");
    }
    let mut res = String::new();
    for i in 0..bytes.len()
        invariant
            HEX_DIGITS@.len() == 16,
            res@ == upper_hex(bytes@.take(i as int)),
    {
        proof {
            assert(bytes@.take(i as int + 1).drop_last() =~= bytes@.take(i as int));
        }
        let b = bytes[i];
        let high = (b / 16) as usize;
        let low = (b % 16) as usize;
        res.append(HEX_DIGITS.substring_char(high, high + 1));
        res.append(HEX_DIGITS.substring_char(low, low + 1));
        proof {
            assert(res@ =~= upper_hex(bytes@.take(i as int + 1)));
        }
    }
    proof {
        assert(bytes@.take(bytes@.len() as int) =~= bytes@);
    }
    res
}

/// The value of a hexadecimal digit of either case, -1 for any other character.
pub open spec fn hex_digit_value(c: char) -> int {
    if '0' <= c && c <= '9' {
        c as int - '0' as int
    } else if 'A' <= c && c <= 'F' {
        c as int - 'A' as int + 10
    } else if 'a' <= c && c <= 'f' {
        c as int - 'a' as int + 10
    } else {
        -1
    }
}

/// The bytes a hexadecimal text stands for: each pair of digits, high digit first, is a byte;
/// a text of odd length or with another character stands for none.
pub open spec fn hex_decoded(s: Seq<char>) -> Option<Seq<u8>> {
    if s.len() % 2 != 0 || exists|i: int| 0 <= i < s.len() && #[trigger] hex_digit_value(s[i]) < 0 {
        None
    } else {
        Some(Seq::new(s.len() / 2, |i: int| (hex_digit_value(s[2 * i]) * 16 + hex_digit_value(s[2 * i + 1])) as u8))
    }
}

/// `hex::decode` on a text: it reads the text's UTF-8 bytes in pairs, each byte an ASCII
/// hexadecimal digit of either case, and fails on odd length or on any other byte. A
/// non-ASCII character gives bytes that are no digits, so the contract is stated on
/// characters.
#[verifier::external_body]
pub(crate) fn hex_decode(s: &str) -> (res: Option<Vec<u8>>)
    ensures
        match res {
            Some(v) => hex_decoded(s@) == Some(v@),
            None => hex_decoded(s@) is None,
        },
{
    hex::decode(s).ok()
}

/// Upper-case hexadecimal reads back as the bytes it was written from.
pub proof fn lemma_hex_roundtrip(bytes: Seq<u8>)
    ensures
        hex_decoded(upper_hex(bytes)) == Some(bytes),
{
    reveal_strlit("0123456789ABCDEF");
    lemma_upper_hex_shape(bytes);
    let s = upper_hex(bytes);
    assert(forall|i: int| 0 <= i < s.len() ==> #[trigger] hex_digit_value(s[i]) >= 0) by {
        assert forall|i: int| 0 <= i < s.len() implies #[trigger] hex_digit_value(s[i]) >= 0 by {
            let k = i / 2;
            assert(upper_hex(bytes)[2 * k] == upper_digit(bytes[k] / 16));
            lemma_digit_value(bytes[k] / 16);
            lemma_digit_value(bytes[k] % 16);
            if i % 2 == 0 {
                assert(i == 2 * k);
            } else {
                assert(i == 2 * k + 1);
            }
        }
    }
    let decoded = Seq::new(s.len() / 2, |i: int| (hex_digit_value(s[2 * i]) * 16 + hex_digit_value(s[2 * i + 1])) as u8);
    assert forall|i: int| 0 <= i < bytes.len() implies decoded[i] == bytes[i] by {
        assert(upper_hex(bytes)[2 * i] == upper_digit(bytes[i] / 16));
        lemma_digit_value(bytes[i] / 16);
        lemma_digit_value(bytes[i] % 16);
    }
    assert(decoded =~= bytes);
}

/// Each digit reads back as its value.
proof fn lemma_digit_value(n: u8)
    requires
        n < 16,
        HEX_DIGITS@ == "0123456789ABCDEF"@,
    ensures
        hex_digit_value(upper_digit(n)) == n,
{
    reveal_strlit("0123456789ABCDEF");
    assert(HEX_DIGITS@ =~= seq!['0', '1', '2', '3', '4', '5', '6', '7', '8', '9', 'A', 'B', 'C', 'D', 'E', 'F']);
}

/// Upper-case hexadecimal has two digits per byte: for the i-th byte its high and its low digit.
proof fn lemma_upper_hex_shape(bytes: Seq<u8>)
    ensures
        upper_hex(bytes).len() == 2 * bytes.len(),
        forall|i: int| 0 <= i < bytes.len() ==> #[trigger] upper_hex(bytes)[2 * i] == upper_digit(bytes[i] / 16)
            && upper_hex(bytes)[2 * i + 1] == upper_digit(bytes[i] % 16),
    decreases bytes.len(),
{
    if bytes.len() > 0 {
        lemma_upper_hex_shape(bytes.drop_last());
        assert forall|i: int| 0 <= i < bytes.len() implies #[trigger] upper_hex(bytes)[2 * i] == upper_digit(bytes[i] / 16)
            && upper_hex(bytes)[2 * i + 1] == upper_digit(bytes[i] % 16) by {
            if i < bytes.len() - 1 {
                assert(upper_hex(bytes.drop_last())[2 * i] == upper_digit(bytes.drop_last()[i] / 16));
            }
        }
    }
}

/// The bytes that `base64`'s standard engine decodes from a text, if it decodes any.
pub uninterp spec fn base64_standard_decoded(text: Seq<char>) -> Option<Seq<u8>>;

/// `base64::engine::general_purpose::STANDARD.decode` on a text (the standard alphabet,
/// with padding); what it decodes is left as the name `base64_standard_decoded`.
#[verifier::external_body]
pub(crate) fn base64_decode(text: &str) -> (res: Option<Vec<u8>>)
    ensures
        match res {
            Some(v) => base64_standard_decoded(text@) == Some(v@),
            None => base64_standard_decoded(text@) is None,
        },
{
    base64::engine::general_purpose::STANDARD.decode(text).ok()
}

/// The SHA-256 digest of some bytes.
pub uninterp spec fn sha256(data: Seq<u8>) -> Seq<u8>;

/// `sha2::Sha256::digest`: the digest of the bytes, 32 bytes long (the output size of
/// SHA-256); the digest itself is left as the name `sha256`.
#[verifier::external_body]
pub(crate) fn sha256_digest(data: &[u8]) -> (res: Vec<u8>)
    ensures
        res@ == sha256(data@),
        res@.len() == 32,
{
    sha2::Sha256::digest(data).to_vec()
}

/// Whether 32 bytes are the compressed form of a point on the Ed25519 curve.
pub uninterp spec fn ed25519_point_decompresses(bytes: Seq<u8>) -> bool;

/// Whether Ed25519 accepts a signature of a message under a public key.
pub uninterp spec fn ed25519_verifies(public_key: Seq<u8>, message: Seq<u8>, signature: Seq<u8>) -> bool;

/// Whether `ed25519_dalek::PublicKey::from_bytes` takes some bytes as a key: they must be 32
/// and decompress to a curve point.
pub open spec fn public_key_valid(bytes: Seq<u8>) -> bool {
    bytes.len() == 32 && ed25519_point_decompresses(bytes)
}

/// Whether `ed25519::Signature::try_from` takes some bytes as a signature: they must be 64,
/// and the three high bits of the last byte clear.
pub open spec fn signature_valid(bytes: Seq<u8>) -> bool {
    bytes.len() == 64 && bytes[63] < 32
}

/// `ed25519_dalek::PublicKey::from_bytes`, reduced to whether it succeeds: its source checks
/// the length (32) and decompresses the point; which points decompress is left as the name
/// `ed25519_point_decompresses`.
#[verifier::external_body]
pub(crate) fn public_key_accepted(bytes: &[u8]) -> (res: bool)
    ensures
        res == (bytes@.len() == 32 && ed25519_point_decompresses(bytes@)),
{
    ed25519_dalek::PublicKey::from_bytes(bytes).is_ok()
}

/// `ed25519::Signature::try_from` on a byte slice, reduced to whether it succeeds: its source
/// checks the length (64) and that the last byte is below 32.
#[verifier::external_body]
pub(crate) fn signature_accepted(bytes: &[u8]) -> (res: bool)
    ensures
        res == signature_valid(bytes@),
{
    ed25519_dalek::Signature::try_from(bytes).is_ok()
}

/// `ed25519_dalek::PublicKey::verify` (through `Verifier`): whether the signature of the
/// message is good under the key, with key and signature given as the bytes they are read
/// from (both valid); which signatures are good is left as the name `ed25519_verifies`.
#[verifier::external_body]
pub(crate) fn ed25519_verify(public_key: &[u8], message: &[u8], signature: &[u8]) -> (res: bool)
    requires
        public_key_valid(public_key@),
        signature_valid(signature@),
    ensures
        res == ed25519_verifies(public_key@, message@, signature@),
{
    match (ed25519_dalek::PublicKey::from_bytes(public_key), ed25519_dalek::Signature::try_from(signature)) {
        (Ok(key), Ok(sig)) => key.verify(message, &sig).is_ok(),
        _ => false,
    }
}

/// `std::str::from_utf8`, copied to an owned text: it succeeds exactly on valid UTF-8, and the
/// text then has those bytes.
#[verifier::external_body]
pub(crate) fn utf8_text(bytes: &[u8]) -> (res: Option<String>)
    ensures
        match res {
            Some(s) => valid_utf8(bytes@) && encode_utf8(s@) == bytes@,
            None => !valid_utf8(bytes@),
        },
{
    match std::str::from_utf8(bytes) {
        Ok(s) => Some(s.to_owned()),
        Err(_) => None,
    }
}

/// The big-endian bytes of a 32-bit signed integer in two's complement (`i32::to_be_bytes`).
pub open spec fn be_bytes(n: i32) -> Seq<u8> {
    let u: int = if n < 0 { n + 0x1_0000_0000 } else { n as int };
    seq![(u / 0x100_0000) as u8, ((u / 0x1_0000) % 256) as u8, ((u / 0x100) % 256) as u8, (u % 256) as u8]
}

/// The big-endian bytes of a 32-bit signed integer.
pub fn i32_be_bytes(n: i32) -> (res: Vec<u8>)
    ensures
        res@ == be_bytes(n),
{
    let u: u64 = if n < 0 { (n as i64 + 0x1_0000_0000i64) as u64 } else { n as u64 };
    let mut res: Vec<u8> = Vec::new();
    res.push((u / 0x100_0000) as u8);
    res.push(((u / 0x1_0000) % 256) as u8);
    res.push(((u / 0x100) % 256) as u8);
    res.push((u % 256) as u8);
    proof {
        assert(res@ =~= be_bytes(n));
    }
    res
}

} // verus!
