//! Content fingerprints.
//!
//! A file is identified by a digest of its bytes, rendered in the familiar
//! 8-4-4-4-12 layout of a version 4, variant 1 identifier. Two files with
//! the same bytes get the same fingerprint, which is what import relies on
//! to refuse duplicates.

use sha2::{Digest, Sha256};
use vstd::prelude::*;
use vstd::string::*;

verus! {

/// The SHA-256 digest of a byte sequence.
pub uninterp spec fn sha256(data: Seq<u8>) -> Seq<u8>;

/// `sha2::Sha256::digest`, the one-shot form of `new`, `update`, `finalize`.
/// Trusted: the 32 bytes returned are the SHA-256 digest of `data`, a
/// function of the input bytes alone.
#[verifier::external_body]
fn sha256_digest(data: &[u8]) -> (digest: [u8; 32])
    ensures
        digest@ == sha256(data@),
{
    Sha256::digest(data).into()
}

/// The lowercase hexadecimal digit for `nibble` (`0 <= nibble < 16`).
pub open spec fn hex_digit(nibble: int) -> char {
    if nibble < 10 {
        (('0' as u8 + nibble) as u8) as char
    } else {
        (('a' as u8 + nibble - 10) as u8) as char
    }
}

/// Lowercase hexadecimal text of a byte sequence: two digits per byte, the
/// high nibble first.
pub open spec fn hex_text(bytes: Seq<u8>) -> Seq<char> {
    Seq::new(
        2 * bytes.len(),
        |i: int|
            if i % 2 == 0 {
                hex_digit(bytes[i / 2] as int / 16)
            } else {
                hex_digit(bytes[i / 2] as int % 16)
            },
    )
}

/// `hex::encode`. Trusted: every byte becomes two lowercase hexadecimal
/// digits, high nibble first, in input order.
#[verifier::external_body]
fn hex_encode(bytes: &[u8]) -> (text: String)
    ensures
        text@ == hex_text(bytes@),
{
    hex::encode(bytes)
}

/// Byte 6 with its high nibble replaced by the version marker `0100`.
pub open spec fn version_byte(b: u8) -> u8 {
    (b & 0x0f) | 0x40
}

/// Byte 10 with its two highest bits replaced by the variant marker `10`.
pub open spec fn variant_byte(b: u8) -> u8 {
    (b & 0x3f) | 0x80
}

/// The sixteen identifier bytes taken from a digest: its first sixteen
/// bytes with the version and variant markers written over bytes 6 and 10.
pub open spec fn identifier_bytes(digest: Seq<u8>) -> Seq<u8> {
    digest.take(16).update(6, version_byte(digest[6])).update(10, variant_byte(digest[10]))
}

/// Thirty-two characters split into groups of 8, 4, 4, 4 and 12, with a
/// dash after each group but the last.
pub open spec fn grouped(text: Seq<char>) -> Seq<char> {
    text.subrange(0, 8) + seq!['-'] + text.subrange(8, 12) + seq!['-'] + text.subrange(12, 16)
        + seq!['-'] + text.subrange(16, 20) + seq!['-'] + text.subrange(20, 32)
}

/// The identifier text for a digest of at least sixteen bytes.
pub open spec fn uuid_text(digest: Seq<u8>) -> Seq<char> {
    grouped(hex_text(identifier_bytes(digest)))
}

/// The fingerprint of a file's bytes.
pub open spec fn fingerprint(data: Seq<u8>) -> Seq<char> {
    uuid_text(sha256(data))
}

/// Whether `c` is a lowercase hexadecimal digit.
pub open spec fn is_hex_digit(c: char) -> bool {
    ('0' <= c <= '9') || ('a' <= c <= 'f')
}

/// Whether `text` has the identifier layout: 36 characters, dashes at
/// positions 8, 13, 18 and 23, lowercase hexadecimal digits everywhere
/// else, the version digit `4` at position 14 (the high nibble of byte 6)
/// and a variant digit of `8`, `9`, `a` or `b` at position 24 (the high
/// nibble of byte 10).
pub open spec fn well_formed_uuid(text: Seq<char>) -> bool {
    &&& text.len() == 36
    &&& forall|i: int|
        0 <= i < 36 ==> if i == 8 || i == 13 || i == 18 || i == 23 {
            #[trigger] text[i] == '-'
        } else {
            is_hex_digit(text[i])
        }
    &&& text[14] == '4'
    &&& (text[24] == '8' || text[24] == '9' || text[24] == 'a' || text[24] == 'b')
}

proof fn lemma_marker_nibbles(b: u8)
    ensures
        version_byte(b) / 16 == 4,
        version_byte(b) % 16 == b % 16,
        8 <= variant_byte(b) / 16 <= 11,
        variant_byte(b) % 16 == b % 16,
{
    assert(((b & 0x0f) | 0x40) / 16 == 4) by (bit_vector);
    assert(((b & 0x0f) | 0x40) % 16 == b % 16) by (bit_vector);
    assert(8 <= ((b & 0x3f) | 0x80) / 16 <= 11) by (bit_vector);
    assert(((b & 0x3f) | 0x80) % 16 == b % 16) by (bit_vector);
}

/// Every identifier text has the identifier layout, whatever the digest.
pub proof fn lemma_uuid_text_well_formed(digest: Seq<u8>)
    requires
        digest.len() >= 16,
    ensures
        well_formed_uuid(uuid_text(digest)),
{
    let bytes = identifier_bytes(digest);
    let hex = hex_text(bytes);
    let text = uuid_text(digest);
    lemma_marker_nibbles(digest[6]);
    lemma_marker_nibbles(digest[10]);
    assert(bytes.len() == 16);
    assert(hex.len() == 32);
    assert(text.len() == 36);
    assert forall|k: int| 0 <= k < 32 implies is_hex_digit(#[trigger] hex[k]) by {
        let b = bytes[k / 2];
        assert(0 <= b as int / 16 < 16);
        assert(0 <= b as int % 16 < 16);
    }
    assert forall|i: int| 0 <= i < 36 implies if i == 8 || i == 13 || i == 18 || i == 23 {
        #[trigger] text[i] == '-'
    } else {
        is_hex_digit(text[i])
    } by {
        if i < 8 {
            assert(text[i] == hex[i]);
        } else if i == 8 {
        } else if i < 13 {
            assert(text[i] == hex[i - 1]);
        } else if i == 13 {
        } else if i < 18 {
            assert(text[i] == hex[i - 2]);
        } else if i == 18 {
        } else if i < 23 {
            assert(text[i] == hex[i - 3]);
        } else if i == 23 {
        } else {
            assert(text[i] == hex[i - 4]);
        }
    }
    assert(text[14] == hex[12]);
    assert(hex[12] == hex_digit(bytes[6] as int / 16));
    assert(text[24] == hex[20]);
    assert(hex[20] == hex_digit(bytes[10] as int / 16));
}

/// Equal bytes have equal fingerprints: the fingerprint is a function of
/// the file's content and of nothing else.
pub proof fn lemma_fingerprint_deterministic(a: Seq<u8>, b: Seq<u8>)
    requires
        a == b,
    ensures
        fingerprint(a) == fingerprint(b),
{
}

/// Renders a digest as an identifier: the first sixteen bytes, marked as
/// version 4 and variant 1, in hexadecimal groups of 8-4-4-4-12.
pub fn format_uuid(digest: &[u8; 32]) -> (uuid: String)
    ensures
        uuid@ == uuid_text(digest@),
        well_formed_uuid(uuid@),
{
    let mut bytes: Vec<u8> = Vec::new();
    let mut i: usize = 0;
    while i < 16
        invariant
            0 <= i <= 16,
            bytes@ =~= digest@.take(i as int),
        decreases 16 - i,
    {
        bytes.push(digest[i]);
        i = i + 1;
    }
    let version = (bytes[6] & 0x0f) | 0x40;
    bytes.set(6, version);
    let variant = (bytes[10] & 0x3f) | 0x80;
    bytes.set(10, variant);
    assert(bytes@ =~= identifier_bytes(digest@));
    let hex = hex_encode(bytes.as_slice());
    let text = hex.as_str();
    let mut uuid = String::new();
    proof {
        reveal_strlit("-");
    }
    uuid.append(text.substring_char(0, 8));
    uuid.append("-");
    uuid.append(text.substring_char(8, 12));
    uuid.append("-");
    uuid.append(text.substring_char(12, 16));
    uuid.append("-");
    uuid.append(text.substring_char(16, 20));
    uuid.append("-");
    uuid.append(text.substring_char(20, 32));
    assert("-"@ =~= seq!['-']);
    assert(uuid@ =~= grouped(hex@));
    proof {
        lemma_uuid_text_well_formed(digest@);
    }
    uuid
}

/// Computes the fingerprint of a file from its complete content. Never
/// fails, the empty input included.
pub fn generate_uuid(data: &[u8]) -> (uuid: String)
    ensures
        uuid@ == fingerprint(data@),
        well_formed_uuid(uuid@),
{
    let digest = sha256_digest(data);
    format_uuid(&digest)
}

} // verus!
