//! Byte/text encodings used by the profiles: base64 (through the `base64`
//! crate), UTF-8 decoding, and the URL percent-encoding and query-string
//! handling of the HTTP bindings.

use vstd::prelude::*;
use vstd::utf8::*;
use base64::Engine;
use crate::text::{chars_of, find_char_from, first_char, lemma_first_char, slice_chars, string_of};

verus! {

/// The base64 digit for a 6-bit value, in the standard (`+/`) or URL-safe
/// (`-_`) alphabet.
pub open spec fn base64_digit(url_safe: bool, v: int) -> char {
    if v < 26 {
        (65 + v) as char
    } else if v < 52 {
        (97 + (v - 26)) as char
    } else if v < 62 {
        (48 + (v - 52)) as char
    } else if v == 62 {
        if url_safe { '-' } else { '+' }
    } else {
        if url_safe { '_' } else { '/' }
    }
}

/// RFC 4648 base64 encoding of `b`, three bytes to four digits, with `=`
/// padding when `pad` holds.
pub open spec fn base64_encoding(url_safe: bool, pad: bool, b: Seq<u8>) -> Seq<char>
    decreases b.len(),
{
    if b.len() == 0 {
        Seq::empty()
    } else if b.len() == 1 {
        seq![base64_digit(url_safe, b[0] as int / 4), base64_digit(url_safe, (b[0] % 4) * 16)]
            + (if pad { seq!['=', '='] } else { Seq::empty() })
    } else if b.len() == 2 {
        seq![
            base64_digit(url_safe, b[0] as int / 4),
            base64_digit(url_safe, (b[0] % 4) * 16 + b[1] / 16),
            base64_digit(url_safe, (b[1] % 16) * 4),
        ] + (if pad { seq!['='] } else { Seq::empty() })
    } else {
        seq![
            base64_digit(url_safe, b[0] as int / 4),
            base64_digit(url_safe, (b[0] % 4) * 16 + b[1] / 16),
            base64_digit(url_safe, (b[1] % 16) * 4 + b[2] / 64),
            base64_digit(url_safe, b[2] as int % 64),
        ] + base64_encoding(url_safe, pad, b.subrange(3, b.len() as int))
    }
}

/// `k` padding characters.
pub open spec fn padding(k: nat) -> Seq<char> {
    Seq::new(k, |i: int| '=')
}

/// Only the empty byte string has the empty encoding.
pub proof fn lemma_base64_encoding_empty(url_safe: bool, pad: bool, b: Seq<u8>)
    ensures
        (base64_encoding(url_safe, pad, b).len() == 0) == (b.len() == 0),
{
    if b.len() >= 3 {
        assert(base64_encoding(url_safe, pad, b).len() >= 4);
    }
}

/// What the `base64` crate's URL-safe, unpadded engine decodes `input` to
/// (`None` when it reports an error).
pub uninterp spec fn base64_url_nopad_decoding(input: Seq<char>) -> Option<Seq<u8>>;

/// What a `base64` engine with the standard alphabet and
/// `DecodePaddingMode::Indifferent` decodes `input` to (`None` on error).
pub uninterp spec fn base64_lenient_decoding(input: Seq<char>) -> Option<Seq<u8>>;

/// An executable byte vector and a spec byte sequence agree (or both none).
pub open spec fn same_bytes(r: Option<Vec<u8>>, s: Option<Seq<u8>>) -> bool {
    match (r, s) {
        (Some(v), Some(b)) => v@ == b,
        (None, None) => true,
        _ => false,
    }
}

/// `base64::engine::general_purpose::URL_SAFE_NO_PAD.encode`. The contract
/// states the RFC 4648 encoding and, as the crate documents, that decoding
/// the output with the same engine gives the input back.
#[verifier::external_body]
pub(crate) fn base64_url_nopad_encode(input: &[u8]) -> (r: String)
    ensures
        r@ == base64_encoding(true, false, input@),
        base64_url_nopad_decoding(r@) == Some(input@),
{
    base64::engine::general_purpose::URL_SAFE_NO_PAD.encode(input)
}

/// `base64::engine::general_purpose::URL_SAFE_NO_PAD.decode`. The engine
/// requires no padding and rejects non-zero trailing bits, so it accepts
/// exactly the canonical unpadded encodings: what it decodes `input` to is
/// the byte string whose encoding `input` is.
#[verifier::external_body]
pub(crate) fn base64_url_nopad_decode(input: &str) -> (r: Option<Vec<u8>>)
    ensures
        same_bytes(r, base64_url_nopad_decoding(input@)),
        r matches Some(v) ==> input@ == base64_encoding(true, false, v@),
        r is None ==> forall|b: Seq<u8>| input@ != #[trigger] base64_encoding(true, false, b),
{
    base64::engine::general_purpose::URL_SAFE_NO_PAD.decode(input).ok()
}

/// `base64::engine::general_purpose::STANDARD.encode`: padded RFC 4648
/// base64, which the same engine decodes back to the input.
#[verifier::external_body]
pub(crate) fn base64_standard_encode(input: &[u8]) -> (r: String)
    ensures
        r@ == base64_encoding(false, true, input@),
        base64_standard_decoding(r@) == Some(input@),
{
    base64::engine::general_purpose::STANDARD.encode(input)
}

/// What `base64::engine::general_purpose::STANDARD.decode` gives for
/// `input`, or `None` when it rejects it.
pub uninterp spec fn base64_standard_decoding(input: Seq<char>) -> Option<Seq<u8>>;

/// `base64::engine::general_purpose::STANDARD.decode`. The engine requires
/// canonical padding and rejects non-zero trailing bits, so it accepts
/// exactly the canonical padded encodings: what it decodes `input` to is the
/// byte string whose encoding `input` is.
#[verifier::external_body]
pub(crate) fn base64_standard_decode(input: &str) -> (r: Option<Vec<u8>>)
    ensures
        same_bytes(r, base64_standard_decoding(input@)),
        r matches Some(v) ==> input@ == base64_encoding(false, true, v@),
        r is None ==> forall|b: Seq<u8>| input@ != #[trigger] base64_encoding(false, true, b),
{
    base64::engine::general_purpose::STANDARD.decode(input).ok()
}

/// The display text of the `DecodeError` that
/// `base64::engine::general_purpose::STANDARD.decode` reports for `input`.
pub uninterp spec fn base64_standard_error_text(input: Seq<char>) -> Seq<char>;

/// The error of `base64::engine::general_purpose::STANDARD.decode`, as its
/// display text: `Some` exactly when the decoding fails, the message named.
#[verifier::external_body]
pub(crate) fn base64_standard_decode_error(input: &str) -> (r: Option<String>)
    ensures
        r is Some <==> base64_standard_decoding(input@) is None,
        r matches Some(m) ==> m@ == base64_standard_error_text(input@),
{
    base64::engine::general_purpose::STANDARD.decode(input).err().map(|e| e.to_string())
}

/// Decodes with a standard-alphabet engine that accepts padded and unpadded
/// input (`DecodePaddingMode::Indifferent`) and rejects non-zero trailing
/// bits: what it decodes `input` to is the byte string whose padded encoding
/// is `input` followed by the padding left out, if any.
#[verifier::external_body]
pub(crate) fn base64_lenient_decode(input: &str) -> (r: Option<Vec<u8>>)
    ensures
        same_bytes(r, base64_lenient_decoding(input@)),
        r matches Some(v) ==> exists|k: nat|
            k <= 2 && input@ + #[trigger] padding(k) == base64_encoding(false, true, v@),
{
    let config = base64::engine::GeneralPurposeConfig::new()
        .with_decode_padding_mode(base64::engine::DecodePaddingMode::Indifferent);
    base64::engine::GeneralPurpose::new(&base64::alphabet::STANDARD, config).decode(input).ok()
}

/// `String::from_utf8`: `Some` exactly when the bytes are valid UTF-8, and
/// then a string whose UTF-8 encoding is those bytes.
#[verifier::external_body]
pub(crate) fn string_from_utf8(bytes: Vec<u8>) -> (r: Option<String>)
    ensures
        r is Some <==> valid_utf8(bytes@),
        r matches Some(s) ==> encode_utf8(s@) == bytes@,
{
    String::from_utf8(bytes).ok()
}

/// The message of the `Utf8Error` that `std::str::from_utf8` reports for
/// `bytes`.
pub uninterp spec fn utf8_error_text(bytes: Seq<u8>) -> Seq<char>;

/// `std::str::from_utf8`'s error, as its display text: `Some` exactly when
/// the bytes are not valid UTF-8, the message named.
#[verifier::external_body]
pub(crate) fn utf8_error(bytes: &[u8]) -> (r: Option<String>)
    ensures
        r is Some <==> !valid_utf8(bytes@),
        r matches Some(m) ==> m@ == utf8_error_text(bytes@),
{
    std::str::from_utf8(bytes).err().map(|e| e.to_string())
}

/// The UTF-8 bytes of a string slice.
pub fn utf8_bytes(s: &str) -> (r: Vec<u8>)
    ensures
        r@ == encode_utf8(s@),
{
    let b = s.as_bytes();
    let mut out: Vec<u8> = Vec::new();
    let mut i: usize = 0;
    while i < b.len()
        invariant
            0 <= i <= b.len(),
            b@ == encode_utf8(s@),
            out@ == b@.subrange(0, i as int),
        decreases b.len() - i,
    {
        out.push(b[i]);
        i = i + 1;
    }
    assert(out@ =~= b@);
    out
}

// ── URL percent-decoding and query strings ─────────────────────────────────

/// The value of an ASCII hex digit, if it is one.
pub open spec fn hex_value(b: u8) -> Option<int> {
    if 48 <= b <= 57 {
        Some(b - 48)
    } else if 65 <= b <= 70 {
        Some(b - 55)
    } else if 97 <= b <= 102 {
        Some(b - 87)
    } else {
        None
    }
}

/// `application/x-www-form-urlencoded` decoding of bytes: `%HH` is the byte
/// with that hex value, `+` is a space, any other byte stands for itself; a
/// `%` not followed by two hex digits makes the input invalid.
pub open spec fn percent_decoding(b: Seq<u8>) -> Option<Seq<u8>>
    decreases b.len(),
{
    if b.len() == 0 {
        Some(Seq::empty())
    } else if b[0] == 37 {
        if b.len() >= 3 && hex_value(b[1]) is Some && hex_value(b[2]) is Some {
            match percent_decoding(b.subrange(3, b.len() as int)) {
                Some(rest) => Some(seq![(hex_value(b[1])->0 * 16 + hex_value(b[2])->0) as u8] + rest),
                None => None,
            }
        } else {
            None
        }
    } else {
        match percent_decoding(b.subrange(1, b.len() as int)) {
            Some(rest) => Some(seq![if b[0] == 43 { 32u8 } else { b[0] }] + rest),
            None => None,
        }
    }
}

/// The text a URL-encoded value decodes to: the percent-decoding of its
/// UTF-8 bytes, which must itself be valid UTF-8.
pub open spec fn url_decoding(s: Seq<char>) -> Option<Seq<char>> {
    match percent_decoding(encode_utf8(s)) {
        Some(bytes) => if valid_utf8(bytes) {
            Some(decode_utf8(bytes))
        } else {
            None
        },
        None => None,
    }
}

/// The hex value of an ASCII hex digit.
fn hex_digit_value(b: u8) -> (r: Option<u8>)
    ensures
        match r {
            Some(v) => hex_value(b) == Some(v as int),
            None => hex_value(b) is None,
        },
{
    if 48 <= b && b <= 57 {
        Some(b - 48)
    } else if 65 <= b && b <= 70 {
        Some(b - 55)
    } else if 97 <= b && b <= 102 {
        Some(b - 87)
    } else {
        None
    }
}

/// Percent-decodes the bytes `b[i..]` (see [`percent_decoding`]).
fn percent_decode_bytes(b: &[u8]) -> (r: Option<Vec<u8>>)
    ensures
        same_bytes(r, percent_decoding(b@)),
{
    let mut out: Vec<u8> = Vec::new();
    let mut i: usize = 0;
    assert(b@.subrange(0, b.len() as int) =~= b@);
    proof {
        match percent_decoding(b@) {
            Some(rest) => {
                assert(out@ + rest =~= rest);
            },
            None => {},
        }
    }
    while i < b.len()
        invariant
            i <= b.len(),
            percent_decoding(b@) == match percent_decoding(b@.subrange(i as int, b.len() as int)) {
                Some(rest) => Some(out@ + rest),
                None => None,
            },
        decreases b.len() - i,
    {
        let ghost tail = b@.subrange(i as int, b.len() as int);
        if b[i] == 37 {
            if b.len() - i >= 3 {
                match (hex_digit_value(b[i + 1]), hex_digit_value(b[i + 2])) {
                    (Some(hi), Some(lo)) => {
                        let ghost before = out@;
                        out.push(hi * 16 + lo);
                        assert(tail.subrange(3, tail.len() as int) =~= b@.subrange(i + 3, b.len() as int));
                        proof {
                            match percent_decoding(b@.subrange(i + 3, b.len() as int)) {
                                Some(rest) => {
                                    assert(out@ + rest =~= before + (seq![(hi * 16 + lo) as u8] + rest));
                                },
                                None => {},
                            }
                        }
                        i = i + 3;
                    },
                    _ => {
                        return None;
                    },
                }
            } else {
                return None;
            }
        } else {
            let ghost before = out@;
            let v: u8 = if b[i] == 43 { 32 } else { b[i] };
            out.push(v);
            assert(tail.subrange(1, tail.len() as int) =~= b@.subrange(i + 1, b.len() as int));
            proof {
                match percent_decoding(b@.subrange(i + 1, b.len() as int)) {
                    Some(rest) => {
                        assert(out@ + rest =~= before + (seq![v] + rest));
                    },
                    None => {},
                }
            }
            i = i + 1;
        }
    }
    assert(out@ + Seq::<u8>::empty() =~= out@);
    Some(out)
}

/// `url_decode`: decodes a URL-encoded query value to text; `None` on a
/// malformed escape or when the bytes are not UTF-8.
pub fn url_decode(s: &str) -> (r: Option<String>)
    ensures
        match r {
            Some(t) => url_decoding(s@) == Some(t@),
            None => url_decoding(s@) is None,
        },
{
    let bytes = utf8_bytes(s);
    match percent_decode_bytes(bytes.as_slice()) {
        Some(decoded) => {
            let ghost d = decoded@;
            match string_from_utf8(decoded) {
                Some(t) => {
                    proof {
                        encode_utf8_decode_utf8(t@);
                    }
                    Some(t)
                },
                None => None,
            }
        },
        None => None,
    }
}

/// A query-string segment split at its first `=` (no `=`: an empty value).
pub open spec fn key_value_of(seg: Seq<char>) -> (Seq<char>, Seq<char>) {
    match first_char(seg, '=', 0) {
        Some(i) => (seg.subrange(0, i), seg.subrange(i + 1, seg.len() as int)),
        None => (seg, Seq::empty()),
    }
}

/// The raw `(key, value)` pairs of the `&`-separated segments of `q` from
/// `start` on; empty segments are skipped.
pub open spec fn query_pairs_from(q: Seq<char>, start: int) -> Seq<(Seq<char>, Seq<char>)>
    decreases q.len() + 1 - start,
{
    if start < 0 || start > q.len() {
        Seq::empty()
    } else {
        proof {
            lemma_first_char(q, '&', start);
        }
        let end = match first_char(q, '&', start) {
            Some(i) => i,
            None => q.len() as int,
        };
        let seg = q.subrange(start, end);
        let here = if seg.len() > 0 { seq![key_value_of(seg)] } else { Seq::empty() };
        here + query_pairs_from(q, end + 1)
    }
}

/// The view of a list of string pairs.
pub open spec fn string_pairs_view(v: Seq<(String, String)>) -> Seq<(Seq<char>, Seq<char>)> {
    Seq::new(v.len(), |i: int| (v[i].0@, v[i].1@))
}

/// Split a query string into raw (still URL-encoded) `(key, value)` pairs.
pub fn parse_query_string_raw(query: &str) -> (r: Vec<(String, String)>)
    ensures
        string_pairs_view(r@) == query_pairs_from(query@, 0),
{
    let q = chars_of(query);
    let mut out: Vec<(String, String)> = Vec::new();
    let mut start: usize = 0;
    while start <= q.len()
        invariant
            q@ == query@,
            string_pairs_view(out@) + query_pairs_from(q@, start as int) == query_pairs_from(q@, 0),
        decreases q.len() + 1 - start,
    {
        proof {
            lemma_first_char(q@, '&', start as int);
        }
        let end = match find_char_from(q.as_slice(), '&', start) {
            Some(i) => i,
            None => q.len(),
        };
        let seg = slice_chars(q.as_slice(), start, end);
        if seg.len() > 0 {
            proof {
                lemma_first_char(seg@, '=', 0);
            }
            let (k, v) = match find_char_from(seg.as_slice(), '=', 0) {
                Some(i) => (slice_chars(seg.as_slice(), 0, i), slice_chars(seg.as_slice(), i + 1, seg.len())),
                None => (slice_chars(seg.as_slice(), 0, seg.len()), Vec::new()),
            };
            assert(seg@.subrange(0, seg.len() as int) =~= seg@);
            let ghost before = string_pairs_view(out@);
            out.push((string_of(k.as_slice()), string_of(v.as_slice())));
            assert(string_pairs_view(out@) =~= before + seq![key_value_of(seg@)]);
        }
        if end == q.len() {
            assert(query_pairs_from(q@, end + 1) =~= Seq::empty());
            assert(string_pairs_view(out@) =~= string_pairs_view(out@) + Seq::<(Seq<char>, Seq<char>)>::empty());
            return out;
        }
        start = end + 1;
    }
    out
}

} // verus!
