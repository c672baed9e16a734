//! Little-endian CDR encoding of the message kinds, and the matching decoders.
//!
//! An encoded message is the four-byte encapsulation header `00 01 00 00`
//! followed by the message's fields in order. Text is a `u32` length that
//! counts a terminating NUL, the UTF-8 bytes and the NUL; a binary64 is its
//! eight bytes, least significant first, at an offset that is a multiple of
//! eight from the end of the header.
use vstd::prelude::*;
use vstd::bytes::*;
use vstd::slice::*;
use vstd::utf8::*;
use crate::message::{Hello, Twist, Vector3};

verus! {

/// The error type of `cdr`, carried opaquely.
#[verifier::external_type_specification]
#[verifier::external_body]
pub struct ExCdrError(cdr::Error);

/// The encapsulation header of little-endian CDR.
pub open spec fn cdr_le_header() -> Seq<u8> {
    seq![0u8, 1u8, 0u8, 0u8]
}

/// Whether text of these bytes has a length, NUL included, that fits in a `u32`.
pub open spec fn text_fits(bytes: Seq<u8>) -> bool {
    bytes.len() + 1 <= u32::MAX
}

/// CDR text: its length with the NUL, the bytes, the NUL.
pub open spec fn cdr_text(bytes: Seq<u8>) -> Seq<u8> {
    spec_u32_to_le_bytes((bytes.len() + 1) as u32) + bytes + seq![0u8]
}

/// Six binary64 words after the header.
pub open spec fn cdr_words(w: (u64, u64, u64, u64, u64, u64)) -> Seq<u8> {
    spec_u64_to_le_bytes(w.0) + spec_u64_to_le_bytes(w.1) + spec_u64_to_le_bytes(w.2)
        + spec_u64_to_le_bytes(w.3) + spec_u64_to_le_bytes(w.4) + spec_u64_to_le_bytes(w.5)
}

/// The fields of a twist in the order they are written.
pub open spec fn twist_words(t: Twist) -> (u64, u64, u64, u64, u64, u64) {
    (t.linear.x, t.linear.y, t.linear.z, t.angular.x, t.angular.y, t.angular.z)
}

/// Whether a hello with this text can be encoded.
pub open spec fn hello_encodable(msg: Seq<char>) -> bool {
    text_fits(encode_utf8(msg))
}

/// The encoding of a hello with this text.
pub open spec fn encode_hello_spec(msg: Seq<char>) -> Seq<u8> {
    cdr_le_header() + cdr_text(encode_utf8(msg))
}

/// The encoding of a twist.
pub open spec fn encode_twist_spec(t: Twist) -> Seq<u8> {
    cdr_le_header() + cdr_words(twist_words(t))
}

/// Relies on `cdr::serialize` with the `CdrLe` encapsulation and no size bound,
/// on a `str`: the header, then the text as `serialize_str` writes it. It fails
/// (`NumberOutOfRange`) only when the length with the NUL exceeds `u32::MAX`.
#[verifier::external_body]
fn cdr_serialize_text(s: &str) -> (r: Result<Vec<u8>, cdr::Error>)
    ensures
        match r {
            Ok(b) => text_fits(encode_utf8(s@)) && b@ == cdr_le_header() + cdr_text(encode_utf8(s@)),
            Err(_) => !text_fits(encode_utf8(s@)),
        },
{
    cdr::serialize::<str, _, cdr::CdrLe>(s, cdr::Infinite)
}

/// Relies on `cdr::serialize` with the `CdrLe` encapsulation and no size bound,
/// on a tuple of six `u64`: the header, then each word as eight little-endian
/// bytes, already aligned. Writing into a `Vec` does not fail.
///
/// A binary64 is written by `serialize_f64` as the same eight bytes as its bit
/// pattern by `serialize_u64`, with the same alignment.
#[verifier::external_body]
fn cdr_serialize_words(w: (u64, u64, u64, u64, u64, u64)) -> (r: Result<Vec<u8>, cdr::Error>)
    ensures
        r is Ok,
        r matches Ok(b) ==> b@ == cdr_le_header() + cdr_words(w),
{
    cdr::serialize::<_, _, cdr::CdrLe>(&w, cdr::Infinite)
}

/// Relies on `String::from_utf8`: it succeeds exactly on valid UTF-8, and the
/// string then holds those bytes.
#[verifier::external_body]
fn string_from_utf8(b: Vec<u8>) -> (r: Option<String>)
    ensures
        match r {
            Some(s) => valid_utf8(b@) && s@ == decode_utf8(b@),
            None => !valid_utf8(b@),
        },
{
    String::from_utf8(b).ok()
}

/// Encodes a hello; `None` when its text is too long for CDR.
pub fn encode_hello(h: &Hello) -> (r: Option<Vec<u8>>)
    ensures
        match r {
            Some(b) => hello_encodable(h.msg@) && b@ == encode_hello_spec(h.msg@),
            None => !hello_encodable(h.msg@),
        },
{
    let s: &str = h.msg.as_str();
    match cdr_serialize_text(s) {
        Ok(b) => Some(b),
        Err(_) => None,
    }
}

/// Encodes a twist.
pub fn encode_twist(t: &Twist) -> (r: Vec<u8>)
    ensures
        r@ == encode_twist_spec(*t),
{
    let w = (t.linear.x, t.linear.y, t.linear.z, t.angular.x, t.angular.y, t.angular.z);
    cdr_serialize_words(w).unwrap()
}

/// What a hello decodes to: the text, when the bytes are a little-endian CDR
/// header and one well-formed CDR text holding valid UTF-8.
pub open spec fn decode_hello_spec(b: Seq<u8>) -> Option<Seq<char>> {
    if b.len() >= 9 && b.subrange(0, 4) == cdr_le_header() {
        let n = spec_u32_from_le_bytes(b.subrange(4, 8));
        let body = b.subrange(8, b.len() - 1);
        if b.len() == 8 + n && b[b.len() - 1] == 0 && valid_utf8(body) {
            Some(decode_utf8(body))
        } else {
            None
        }
    } else {
        None
    }
}

/// The word at a given position among the six after the header.
pub open spec fn word_at(b: Seq<u8>, i: int) -> u64 {
    spec_u64_from_le_bytes(b.subrange(4 + 8 * i, 12 + 8 * i))
}

/// What a twist decodes to: its six words, when the bytes are a little-endian
/// CDR header and exactly six words.
pub open spec fn decode_twist_spec(b: Seq<u8>) -> Option<Twist> {
    if b.len() == 52 && b.subrange(0, 4) == cdr_le_header() {
        Some(
            Twist {
                linear: Vector3 { x: word_at(b, 0), y: word_at(b, 1), z: word_at(b, 2) },
                angular: Vector3 { x: word_at(b, 3), y: word_at(b, 4), z: word_at(b, 5) },
            },
        )
    } else {
        None
    }
}

fn has_cdr_le_header(b: &[u8]) -> (r: bool)
    requires
        b@.len() >= 4,
    ensures
        r == (b@.subrange(0, 4) == cdr_le_header()),
{
    let r = b[0] == 0 && b[1] == 1 && b[2] == 0 && b[3] == 0;
    assert(r <==> b@.subrange(0, 4) =~= cdr_le_header());
    r
}

/// Reads back a hello written by [`encode_hello`].
pub fn decode_hello(b: &[u8]) -> (r: Option<Hello>)
    ensures
        match r {
            Some(h) => decode_hello_spec(b@) == Some(h.msg@),
            None => decode_hello_spec(b@) is None,
        },
{
    let len = b.len();
    if len < 9 {
        return None;
    }
    if !has_cdr_le_header(b) {
        return None;
    }
    let n = u32_from_le_bytes(slice_subrange(b, 4, 8));
    if (len - 8) as u64 != n as u64 || b[len - 1] != 0 {
        return None;
    }
    let body = slice_to_vec(slice_subrange(b, 8, len - 1));
    match string_from_utf8(body) {
        Some(msg) => Some(Hello { msg }),
        None => None,
    }
}

fn word_from(b: &[u8], i: usize) -> (r: u64)
    requires
        i < 6,
        b@.len() == 52,
    ensures
        r == word_at(b@, i as int),
{
    u64_from_le_bytes(slice_subrange(b, 4 + 8 * i, 12 + 8 * i))
}

/// Reads back a twist written by [`encode_twist`].
pub fn decode_twist(b: &[u8]) -> (r: Option<Twist>)
    ensures
        r == decode_twist_spec(b@),
{
    if b.len() != 52 || !has_cdr_le_header(b) {
        return None;
    }
    Some(
        Twist {
            linear: Vector3 { x: word_from(b, 0), y: word_from(b, 1), z: word_from(b, 2) },
            angular: Vector3 { x: word_from(b, 3), y: word_from(b, 4), z: word_from(b, 5) },
        },
    )
}

/// Decoding an encoded hello gives back its text, whatever characters it holds.
pub proof fn lemma_hello_round_trip(msg: Seq<char>)
    requires
        hello_encodable(msg),
    ensures
        decode_hello_spec(encode_hello_spec(msg)) == Some(msg),
{
    lemma_auto_spec_u32_to_from_le_bytes();
    encode_utf8_valid_utf8(msg);
    encode_utf8_decode_utf8(msg);
    let u = encode_utf8(msg);
    let n = (u.len() + 1) as u32;
    let b = encode_hello_spec(msg);
    assert(spec_u32_to_le_bytes(n).len() == 4);
    assert(b.subrange(0, 4) =~= cdr_le_header());
    assert(b.subrange(4, 8) =~= spec_u32_to_le_bytes(n));
    assert(b.subrange(8, b.len() - 1) =~= u);
}

/// Decoding an encoded twist gives back every word, bit for bit.
pub proof fn lemma_twist_round_trip(t: Twist)
    ensures
        decode_twist_spec(encode_twist_spec(t)) == Some(t),
{
    lemma_auto_spec_u64_to_from_le_bytes();
    let w = twist_words(t);
    let b = encode_twist_spec(t);
    assert(spec_u64_to_le_bytes(w.0).len() == 8);
    assert(spec_u64_to_le_bytes(w.1).len() == 8);
    assert(spec_u64_to_le_bytes(w.2).len() == 8);
    assert(spec_u64_to_le_bytes(w.3).len() == 8);
    assert(spec_u64_to_le_bytes(w.4).len() == 8);
    assert(spec_u64_to_le_bytes(w.5).len() == 8);
    assert(b.subrange(0, 4) =~= cdr_le_header());
    assert(b.subrange(4, 12) =~= spec_u64_to_le_bytes(w.0));
    assert(b.subrange(12, 20) =~= spec_u64_to_le_bytes(w.1));
    assert(b.subrange(20, 28) =~= spec_u64_to_le_bytes(w.2));
    assert(b.subrange(28, 36) =~= spec_u64_to_le_bytes(w.3));
    assert(b.subrange(36, 44) =~= spec_u64_to_le_bytes(w.4));
    assert(b.subrange(44, 52) =~= spec_u64_to_le_bytes(w.5));
}

} // verus!
