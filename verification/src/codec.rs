//! The identity hash of a card and its layout in the card's memory.
//!
//! The hash is the SHA-256 digest, written as 64 hexadecimal digits, of the
//! text `uid:resident:apartment:date`, in which a colon within the UID or
//! the apartment is escaped. It is the only thing that says whose card this
//! is. On the card it occupies a run of [`PAGE_COUNT`] pages of
//! [`PAGE_SIZE`] bytes: the bytes of the text in order, followed by zero
//! bytes up to the end of the run.

use sha2::{Digest, Sha256};
use vstd::prelude::*;
use vstd::string::*;
use vstd::utf8::*;
use crate::errors::ErrorKind;
use crate::text::{
    decimal_text, escaped, hex_text, lemma_decimal_is_digits, lemma_decimal_is_one_to_one,
    lemma_escaped_has_no_colon, lemma_escaped_is_one_to_one, lemma_hex_text_is_ascii,
    lemma_split_at_colon, push_decimal, push_escaped, to_escaped, to_hex,
};

verus! {

/// Bytes in one page of card memory.
pub const PAGE_SIZE: usize = 4;

/// Number of pages reserved for the hash.
pub const PAGE_COUNT: usize = 16;

/// Bytes reserved for the hash: [`PAGE_COUNT`] pages of [`PAGE_SIZE`] bytes.
pub const CAPACITY: usize = 64;

/// First page of the run reserved for the hash.
pub const FIRST_PAGE: u8 = 5;

/// Bytes in a SHA-256 digest.
pub const DIGEST_SIZE: usize = 32;

/// What a card's identity is computed from.
#[derive(Debug, Clone, PartialEq, Eq)]
pub struct NFCCardData {
    /// The UID that the card broadcasts.
    pub uid: String,
    /// The resident to whom the card is issued.
    pub resident_id: u32,
    /// The apartment of that resident.
    pub apt: String,
    /// When the card was issued.
    pub added_date: String,
}

/// What an [`NFCCardData`] stands for.
#[verifier::ext_equal]
pub struct NFCCardView {
    pub uid: Seq<char>,
    pub resident_id: u32,
    pub apt: Seq<char>,
    pub added_date: Seq<char>,
}

impl View for NFCCardData {
    type V = NFCCardView;

    open spec fn view(&self) -> NFCCardView {
        NFCCardView {
            uid: self.uid@,
            resident_id: self.resident_id,
            apt: self.apt@,
            added_date: self.added_date@,
        }
    }
}

/// The SHA-256 digest of `data`, as the `sha2` crate computes it.
pub uninterp spec fn sha256_digest(data: Seq<u8>) -> Seq<u8>;

impl NFCCardView {
    /// The text that is hashed: the four fields, separated by colons. The
    /// resident's number stands in decimal; the UID and the apartment are
    /// escaped, so that no colon of theirs is taken for a separator; the
    /// date, which comes last, stands as it is. Different cards have
    /// different texts.
    pub open spec fn identity_text(self) -> Seq<char> {
        escaped(self.uid) + ":"@ + decimal_text(self.resident_id as nat) + ":"@ + escaped(
            self.apt,
        ) + ":"@ + self.added_date
    }

    /// The identity hash: the SHA-256 digest of the UTF-8 bytes of
    /// [`identity_text`](Self::identity_text), in lower-case hexadecimal.
    pub open spec fn identity_hash(self) -> Seq<char> {
        hex_text(sha256_digest(encode_utf8(self.identity_text())), false)
    }
}

/// Calls `sha2::Sha256::digest`, which hashes `data` in one go. The result is
/// the SHA-256 digest of `data`; a SHA-256 digest has 32 bytes.
#[verifier::external_body]
fn sha256(data: &[u8]) -> (digest: Vec<u8>)
    ensures
        digest@ == sha256_digest(data@),
        digest@.len() == DIGEST_SIZE,
{
    Sha256::digest(data).to_vec()
}

/// Calls `String::from_utf8`: the text that `bytes` are the UTF-8 encoding
/// of, or nothing where `bytes` are not valid UTF-8.
#[verifier::external_body]
fn text_from_utf8(bytes: Vec<u8>) -> (text: Option<String>)
    ensures
        text is Some <==> valid_utf8(bytes@),
        text matches Some(s) ==> s@ == decode_utf8(bytes@),
{
    String::from_utf8(bytes).ok()
}

impl NFCCardData {
    /// The text that is hashed.
    pub fn identity(&self) -> (text: String)
        ensures
            text@ == self@.identity_text(),
    {
        let mut text = to_escaped(self.uid.as_str());
        text.append(":");
        push_decimal(&mut text, self.resident_id);
        text.append(":");
        push_escaped(&mut text, self.apt.as_str());
        text.append(":");
        text.append(self.added_date.as_str());
        text
    }

    /// Computes the identity hash of the card.
    ///
    /// The same card data always gives the same hash, and the hash always
    /// fits the pages reserved for it.
    pub fn generate_hash(&self) -> (hash: String)
        ensures
            hash@ == self@.identity_hash(),
            hash@.len() == CAPACITY,
            encode_utf8(hash@).len() == CAPACITY,
    {
        let text = self.identity();
        let digest = sha256(text.as_str().as_bytes());
        proof {
            lemma_hex_text_is_ascii(digest@, false);
            is_ascii_chars_encode_utf8(hex_text(digest@, false));
        }
        to_hex(digest.as_slice(), false)
    }
}

/// `bytes` followed by zero bytes up to a length of `total`.
pub open spec fn zero_padded(bytes: Seq<u8>, total: nat) -> Seq<u8> {
    Seq::new(
        total,
        |i: int|
            if i < bytes.len() {
                bytes[i]
            } else {
                0u8
            },
    )
}

/// The bytes of `chunks`, one chunk after the other.
pub open spec fn joined(chunks: Seq<[u8; 4]>) -> Seq<u8> {
    Seq::new(4 * chunks.len(), |i: int| chunks[i / 4]@[i % 4])
}

/// `bytes` without the zero bytes at its end.
pub open spec fn without_trailing_zeros(bytes: Seq<u8>) -> Seq<u8>
    decreases bytes.len(),
{
    if bytes.len() > 0 && bytes.last() == 0 {
        without_trailing_zeros(bytes.drop_last())
    } else {
        bytes
    }
}

/// Whether `chunks` is the encoding of `digest`: all [`PAGE_COUNT`] pages,
/// holding the UTF-8 bytes of `digest` and then zeros.
pub open spec fn encoded(digest: Seq<char>, chunks: Seq<[u8; 4]>) -> bool {
    &&& chunks.len() == PAGE_COUNT
    &&& joined(chunks) == zero_padded(encode_utf8(digest), CAPACITY as nat)
}

/// What `bytes` decode to: the text whose UTF-8 encoding they are once the
/// zero bytes at the end are dropped, or `MalformedData` where what is left
/// is not valid UTF-8.
pub open spec fn decoded_bytes(bytes: Seq<u8>) -> Result<Seq<char>, ErrorKind> {
    let text = without_trailing_zeros(bytes);
    if valid_utf8(text) {
        Ok(decode_utf8(text))
    } else {
        Err(ErrorKind::MalformedData)
    }
}

/// What `chunks` decode to: what their bytes, one chunk after the other,
/// decode to.
pub open spec fn decoded(chunks: Seq<[u8; 4]>) -> Result<Seq<char>, ErrorKind> {
    decoded_bytes(joined(chunks))
}

/// The characters of a text, or the failure in its place.
pub open spec fn text_or_error(result: Result<String, ErrorKind>) -> Result<Seq<char>, ErrorKind> {
    match result {
        Ok(text) => Ok(text@),
        Err(kind) => Err(kind),
    }
}

/// The byte at `at`, or zero beyond the end of `bytes`.
fn byte_or_zero(bytes: &[u8], at: usize) -> (byte: u8)
    ensures
        byte == zero_padded(bytes@, (at + 1) as nat)[at as int],
{
    if at < bytes.len() {
        bytes[at]
    } else {
        0
    }
}

/// Splits a digest into the chunks that are written to the card, one per
/// page.
///
/// A digest of more than [`CAPACITY`] bytes is refused with
/// `CapacityExceeded`: nothing is ever cut off. Any other digest gives
/// exactly [`PAGE_COUNT`] chunks that hold all of its bytes in order,
/// followed by zeros.
pub fn encode(digest: &str) -> (result: Result<Vec<[u8; 4]>, ErrorKind>)
    ensures
        match result {
            Ok(chunks) => digest.spec_bytes().len() <= CAPACITY && encoded(digest@, chunks@),
            Err(kind) => kind == ErrorKind::CapacityExceeded && digest.spec_bytes().len()
                > CAPACITY,
        },
{
    let bytes = digest.as_bytes();
    if bytes.len() > CAPACITY {
        return Err(ErrorKind::CapacityExceeded);
    }
    let mut chunks: Vec<[u8; 4]> = Vec::new();
    let mut page: usize = 0;
    while page < PAGE_COUNT
        invariant
            page <= PAGE_COUNT,
            chunks@.len() == page,
            bytes@ == digest.spec_bytes(),
            forall|i: int|
                0 <= i < 4 * page ==> #[trigger] joined(chunks@)[i] == zero_padded(
                    bytes@,
                    CAPACITY as nat,
                )[i],
        decreases PAGE_COUNT - page,
    {
        let at = page * PAGE_SIZE;
        let chunk = [
            byte_or_zero(bytes, at),
            byte_or_zero(bytes, at + 1),
            byte_or_zero(bytes, at + 2),
            byte_or_zero(bytes, at + 3),
        ];
        let ghost before = chunks@;
        chunks.push(chunk);
        assert forall|i: int| 0 <= i < 4 * (page + 1) implies #[trigger] joined(chunks@)[i]
            == zero_padded(bytes@, CAPACITY as nat)[i] by {
            if i < 4 * page {
                assert(chunks@[i / 4] == before[i / 4]);
                assert(joined(before)[i] == zero_padded(bytes@, CAPACITY as nat)[i]);
            } else {
                assert(i / 4 == page);
                assert(chunks@[i / 4] == chunk);
            }
        }
        page = page + 1;
    }
    assert(joined(chunks@) =~= zero_padded(bytes@, CAPACITY as nat));
    Ok(chunks)
}

/// Puts the chunks read from a card together again.
///
/// The chunks are joined and the zero bytes at the end are dropped. What is
/// left must be valid UTF-8 and is returned as text; otherwise the result is
/// `MalformedData`.
pub fn decode(chunks: &[[u8; 4]]) -> (result: Result<String, ErrorKind>)
    ensures
        text_or_error(result) == decoded(chunks@),
{
    let mut bytes: Vec<u8> = Vec::new();
    let mut page: usize = 0;
    while page < chunks.len()
        invariant
            page <= chunks.len(),
            bytes@.len() == 4 * page,
            forall|i: int| 0 <= i < 4 * page ==> #[trigger] bytes@[i] == joined(chunks@)[i],
        decreases chunks.len() - page,
    {
        let chunk = chunks[page];
        bytes.push(chunk[0]);
        bytes.push(chunk[1]);
        bytes.push(chunk[2]);
        bytes.push(chunk[3]);
        assert forall|i: int| 0 <= i < 4 * (page + 1) implies #[trigger] bytes@[i] == joined(
            chunks@,
        )[i] by {
            if i >= 4 * page {
                assert(i / 4 == page);
            }
        }
        page = page + 1;
    }
    assert(bytes@ =~= joined(chunks@));
    text_from_bytes(bytes)
}

/// Reads the text out of the bytes of a run of pages.
///
/// The zero bytes at the end are dropped. What is left must be valid UTF-8
/// and is returned as text; otherwise the result is `MalformedData`.
pub fn text_from_bytes(bytes: Vec<u8>) -> (result: Result<String, ErrorKind>)
    ensures
        text_or_error(result) == decoded_bytes(bytes@),
{
    let mut bytes = bytes;
    let ghost all = bytes@;
    let mut end: usize = bytes.len();
    assert(bytes@.take(end as int) == bytes@);
    while end > 0 && bytes[end - 1] == 0
        invariant
            end <= bytes.len(),
            without_trailing_zeros(bytes@.take(end as int)) == without_trailing_zeros(bytes@),
        decreases end,
    {
        assert(bytes@.take(end as int).drop_last() == bytes@.take(end - 1));
        end = end - 1;
    }
    bytes.truncate(end);
    assert(bytes@ == without_trailing_zeros(all));
    match text_from_utf8(bytes) {
        Some(text) => Ok(text),
        None => Err(ErrorKind::MalformedData),
    }
}

/// Different cards have different identity texts, and so different bytes go
/// into their hashes: a text is the text of one card only.
pub proof fn lemma_identity_is_one_to_one(a: NFCCardView, b: NFCCardView)
    requires
        a.identity_text() == b.identity_text() || encode_utf8(a.identity_text()) == encode_utf8(
            b.identity_text(),
        ),
    ensures
        a == b,
{
    encode_utf8_decode_utf8(a.identity_text());
    encode_utf8_decode_utf8(b.identity_text());
    assert(a.identity_text() == b.identity_text());
    reveal_strlit(":");
    let colon = seq![':'];
    assert(":"@ =~= colon);
    let number_a = decimal_text(a.resident_id as nat);
    let number_b = decimal_text(b.resident_id as nat);
    let tail_a = escaped(a.apt) + colon + a.added_date;
    let tail_b = escaped(b.apt) + colon + b.added_date;
    let rest_a = number_a + colon + tail_a;
    let rest_b = number_b + colon + tail_b;
    assert(a.identity_text() =~= escaped(a.uid) + colon + rest_a);
    assert(b.identity_text() =~= escaped(b.uid) + colon + rest_b);
    lemma_escaped_has_no_colon(a.uid);
    lemma_escaped_has_no_colon(b.uid);
    lemma_split_at_colon(escaped(a.uid), rest_a, escaped(b.uid), rest_b);
    lemma_escaped_is_one_to_one(a.uid, b.uid);
    lemma_decimal_is_digits(a.resident_id as nat);
    lemma_decimal_is_digits(b.resident_id as nat);
    lemma_split_at_colon(number_a, tail_a, number_b, tail_b);
    lemma_decimal_is_one_to_one(a.resident_id as nat, b.resident_id as nat);
    lemma_escaped_has_no_colon(a.apt);
    lemma_escaped_has_no_colon(b.apt);
    lemma_split_at_colon(escaped(a.apt), a.added_date, escaped(b.apt), b.added_date);
    lemma_escaped_is_one_to_one(a.apt, b.apt);
    assert(a =~= b);
}

/// `text` without the characters NUL at its end.
pub open spec fn without_trailing_nuls(text: Seq<char>) -> Seq<char>
    decreases text.len(),
{
    if text.len() > 0 && text.last() as u32 == 0 {
        without_trailing_nuls(text.drop_last())
    } else {
        text
    }
}

/// Zero padding counts for nothing once the zeros at the end are dropped.
proof fn lemma_padding_is_trimmed(bytes: Seq<u8>, total: nat)
    requires
        bytes.len() <= total,
    ensures
        without_trailing_zeros(zero_padded(bytes, total)) == without_trailing_zeros(bytes),
    decreases total - bytes.len(),
{
    let padded = zero_padded(bytes, total);
    if total == bytes.len() {
        assert(padded =~= bytes);
    } else {
        assert(padded.last() == 0);
        assert(padded.drop_last() =~= zero_padded(bytes, (total - 1) as nat));
        lemma_padding_is_trimmed(bytes, (total - 1) as nat);
    }
}

proof fn lemma_scalar_ends_nonzero(scalar: u32)
    by (bit_vector)
    requires
        scalar != 0,
    ensures
        scalar <= 0x7F ==> (scalar & 0x7F) as u8 != 0,
        0x80 | (scalar & 0x3F) as u8 != 0,
{
}

/// The UTF-8 encoding of a text in two parts is the encoding of the first
/// part followed by that of the second.
proof fn lemma_encoding_of_parts(first: Seq<char>, second: Seq<char>)
    ensures
        encode_utf8(first + second) == encode_utf8(first) + encode_utf8(second),
    decreases first.len(),
{
    if first.len() == 0 {
        assert(first + second =~= second);
        assert(encode_utf8(first) + encode_utf8(second) =~= encode_utf8(second));
    } else {
        lemma_encoding_of_parts(first.drop_first(), second);
        assert((first + second).drop_first() =~= first.drop_first() + second);
        assert(encode_utf8(first + second) =~= encode_utf8(first) + encode_utf8(second));
    }
}

/// The UTF-8 encoding of a text ends with a zero byte exactly when the text
/// ends with the character NUL: dropping the zeros at the end of the one is
/// dropping the NULs at the end of the other.
proof fn lemma_trimmed_encoding(text: Seq<char>)
    ensures
        without_trailing_zeros(encode_utf8(text)) == encode_utf8(without_trailing_nuls(text)),
    decreases text.len(),
{
    if text.len() > 0 {
        let last = seq![text.last()];
        assert(text =~= text.drop_last() + last);
        lemma_encoding_of_parts(text.drop_last(), last);
        assert(encode_utf8(last.drop_first()) =~= Seq::<u8>::empty());
        assert(encode_utf8(last) =~= encode_scalar(text.last() as u32));
        let tail = encode_scalar(text.last() as u32);
        if text.last() as u32 == 0 {
            assert(0u32 & 0x7F == 0) by (bit_vector);
            assert(tail =~= seq![0u8]);
            assert(encode_utf8(text).drop_last() =~= encode_utf8(text.drop_last()));
            lemma_trimmed_encoding(text.drop_last());
        } else {
            lemma_scalar_ends_nonzero(text.last() as u32);
            assert(encode_utf8(text).last() == tail.last());
        }
    }
}

/// Decoding gives back what was encoded: the chunks that encode a digest
/// decode to that digest. The characters NUL at the end of a digest, if it
/// has any, are not told from padding and are lost; every other digest that
/// fits the capacity comes back as it was.
pub proof fn lemma_decode_inverts_encode(digest: Seq<char>, chunks: Seq<[u8; 4]>)
    requires
        encode_utf8(digest).len() <= CAPACITY,
        encoded(digest, chunks),
    ensures
        decoded(chunks) == Ok::<Seq<char>, ErrorKind>(without_trailing_nuls(digest)),
        digest.len() > 0 ==> digest.last() as u32 != 0 ==> decoded(chunks) == Ok::<
            Seq<char>,
            ErrorKind,
        >(digest),
        digest.len() == 0 ==> decoded(chunks) == Ok::<Seq<char>, ErrorKind>(digest),
{
    lemma_padding_is_trimmed(encode_utf8(digest), CAPACITY as nat);
    lemma_trimmed_encoding(digest);
    encode_utf8_valid_utf8(without_trailing_nuls(digest));
    encode_utf8_decode_utf8(without_trailing_nuls(digest));
}

} // verus!
