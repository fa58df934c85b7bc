//! Character-level string helpers shared by the rest of the library.
//!
//! Strings are reasoned about through their view, the sequence of their
//! characters. Searching and slicing is done on `Vec<char>` copies so that
//! every index is a character index.

use vstd::prelude::*;
use vstd::string::*;

verus! {

/// `char::is_whitespace`: the Unicode `White_Space` property.
pub open spec fn is_ws(c: char) -> bool {
    ||| c == '\t' || c == '\n' || c == '\u{0B}' || c == '\u{0C}' || c == '\r' || c == ' '
    ||| c == '\u{85}' || c == '\u{A0}' || c == '\u{1680}'
    ||| ('\u{2000}' <= c && c <= '\u{200A}')
    ||| c == '\u{2028}' || c == '\u{2029}' || c == '\u{202F}' || c == '\u{205F}' || c == '\u{3000}'
}

/// `u8::is_ascii_whitespace`, lifted to characters.
pub open spec fn is_ascii_ws(c: char) -> bool {
    c == ' ' || c == '\t' || c == '\n' || c == '\u{0C}' || c == '\r'
}

/// The first index `i >= from` with `x[i] == c`.
pub open spec fn first_char(x: Seq<char>, c: char, from: int) -> Option<int>
    decreases x.len() - from,
{
    if from < 0 || from >= x.len() {
        None
    } else if x[from] == c {
        Some(from)
    } else {
        first_char(x, c, from + 1)
    }
}

/// The first index `i >= from` at which `needle` occurs in `x`.
pub open spec fn first_match(x: Seq<char>, needle: Seq<char>, from: int) -> Option<int>
    decreases x.len() + 1 - from,
{
    if from < 0 || from + needle.len() > x.len() {
        None
    } else if x.subrange(from, from + needle.len()) == needle {
        Some(from)
    } else {
        first_match(x, needle, from + 1)
    }
}

/// `first_match` finds the first occurrence at or after `from`.
pub proof fn lemma_first_match(x: Seq<char>, needle: Seq<char>, from: int)
    requires
        0 <= from,
    ensures
        first_match(x, needle, from) matches Some(i) ==> {
            &&& from <= i && i + needle.len() <= x.len()
            &&& x.subrange(i, i + needle.len()) == needle
            &&& forall|j: int| from <= j < i ==> #[trigger] x.subrange(j, j + needle.len()) != needle
        },
        first_match(x, needle, from) is None ==> forall|j: int|
            from <= j && j + needle.len() <= x.len() ==> #[trigger] x.subrange(j, j + needle.len()) != needle,
    decreases x.len() + 1 - from,
{
    if from + needle.len() <= x.len() && x.subrange(from, from + needle.len()) != needle {
        lemma_first_match(x, needle, from + 1);
    }
}

/// `first_char` finds the first occurrence of `c` at or after `from`.
pub proof fn lemma_first_char(x: Seq<char>, c: char, from: int)
    requires
        0 <= from,
    ensures
        first_char(x, c, from) matches Some(i) ==> from <= i < x.len() && x[i] == c
            && forall|j: int| from <= j < i ==> x[j] != c,
        first_char(x, c, from) is None ==> forall|j: int| from <= j < x.len() ==> x[j] != c,
    decreases x.len() - from,
{
    if from < x.len() && x[from] != c {
        lemma_first_char(x, c, from + 1);
    }
}

/// The index of the last `c` before `j`.
pub open spec fn last_char_before(x: Seq<char>, c: char, j: int) -> Option<int>
    decreases j,
{
    if j <= 0 || j > x.len() {
        None
    } else if x[j - 1] == c {
        Some(j - 1)
    } else {
        last_char_before(x, c, j - 1)
    }
}

/// An executable index and a spec index denote the same position (or both none).
pub open spec fn same_index(r: Option<usize>, s: Option<int>) -> bool {
    match (r, s) {
        (Some(a), Some(b)) => a as int == b,
        (None, None) => true,
        _ => false,
    }
}

/// Whether `needle` occurs anywhere in `x`.
pub open spec fn seq_contains(x: Seq<char>, needle: Seq<char>) -> bool {
    exists|i: int| 0 <= i && i + needle.len() <= x.len() && #[trigger] x.subrange(i, i + needle.len()) == needle
}

/// Whether `x` begins with `prefix`.
pub open spec fn seq_starts_with(x: Seq<char>, prefix: Seq<char>) -> bool {
    prefix.len() <= x.len() && x.subrange(0, prefix.len() as int) == prefix
}

/// `x` with every (Unicode) whitespace character removed.
pub open spec fn strip_ws(x: Seq<char>) -> Seq<char>
    decreases x.len(),
{
    if x.len() == 0 {
        x
    } else if is_ws(x.last()) {
        strip_ws(x.drop_last())
    } else {
        strip_ws(x.drop_last()).push(x.last())
    }
}

/// The index of the first non-whitespace character at or after `i`.
pub open spec fn skip_ws_fwd(x: Seq<char>, i: int) -> int
    decreases x.len() - i,
{
    if i < 0 || i >= x.len() || !is_ws(x[i]) {
        i
    } else {
        skip_ws_fwd(x, i + 1)
    }
}

/// One past the last non-whitespace character before `j`.
pub open spec fn skip_ws_back(x: Seq<char>, j: int) -> int
    decreases j,
{
    if j <= 0 || j > x.len() || !is_ws(x[j - 1]) {
        j
    } else {
        skip_ws_back(x, j - 1)
    }
}

/// `str::trim`: `x` without leading and trailing whitespace.
pub open spec fn trim(x: Seq<char>) -> Seq<char> {
    let s = skip_ws_fwd(x, 0);
    let e = skip_ws_back(x, x.len() as int);
    if s >= e {
        Seq::empty()
    } else {
        x.subrange(s, e)
    }
}

/// Appends one character to a `String` (std `String::push`).
#[verifier::external_body]
pub(crate) fn string_push(s: &mut String, c: char)
    ensures
        final(s)@ == old(s)@.push(c),
{
    s.push(c);
}

/// The characters of a string slice, in order.
pub fn chars_of(s: &str) -> (r: Vec<char>)
    ensures
        r@ == s@,
{
    let mut out: Vec<char> = Vec::new();
    for c in it: s.chars()
        invariant
            out@ == it.seq().take(it.index() as int),
    {
        out.push(c);
    }
    out
}

/// A `String` holding exactly the given characters.
pub fn string_of(cs: &[char]) -> (r: String)
    ensures
        r@ == cs@,
{
    let mut out = String::new();
    let mut i: usize = 0;
    while i < cs.len()
        invariant
            0 <= i <= cs.len(),
            out@ == cs@.subrange(0, i as int),
        decreases cs.len() - i,
    {
        string_push(&mut out, cs[i]);
        i = i + 1;
    }
    out
}

/// An owned copy of a string slice.
pub fn to_owned_string(s: &str) -> (r: String)
    ensures
        r@ == s@,
{
    s.to_owned()
}

/// Appends `s` to `out`.
pub fn push_str(out: &mut String, s: &str)
    ensures
        final(out)@ == old(out)@ + s@,
{
    out.append(s);
}

/// Whether two character sequences are equal.
pub fn chars_eq(a: &[char], b: &[char]) -> (r: bool)
    ensures
        r == (a@ == b@),
{
    if a.len() != b.len() {
        return false;
    }
    let mut i: usize = 0;
    while i < a.len()
        invariant
            a.len() == b.len(),
            0 <= i <= a.len(),
            forall|k: int| 0 <= k < i ==> a@[k] == b@[k],
        decreases a.len() - i,
    {
        if a[i] != b[i] {
            return false;
        }
        i = i + 1;
    }
    assert(a@ =~= b@);
    true
}

/// Whether two string slices hold the same characters.
pub fn str_eq(a: &str, b: &str) -> (r: bool)
    ensures
        r == (a@ == b@),
{
    let ca = chars_of(a);
    let cb = chars_of(b);
    chars_eq(ca.as_slice(), cb.as_slice())
}

/// Whether `x` holds `needle` starting at index `at`.
pub fn matches_at(x: &[char], needle: &[char], at: usize) -> (r: bool)
    requires
        at <= x.len(),
    ensures
        r == (at + needle.len() <= x.len() && x@.subrange(at as int, at + needle.len()) == needle@),
{
    if needle.len() > x.len() - at {
        return false;
    }
    let mut k: usize = 0;
    while k < needle.len()
        invariant
            at + needle.len() <= x.len(),
            0 <= k <= needle.len(),
            forall|j: int| 0 <= j < k ==> x@[at + j] == needle@[j],
        decreases needle.len() - k,
    {
        if x[at + k] != needle[k] {
            assert(x@.subrange(at as int, at + needle.len())[k as int] != needle@[k as int]);
            return false;
        }
        k = k + 1;
    }
    assert(x@.subrange(at as int, at + needle.len()) =~= needle@);
    true
}

/// The first index at or after `from` where `c` occurs.
pub fn find_char_from(x: &[char], c: char, from: usize) -> (r: Option<usize>)
    ensures
        same_index(r, first_char(x@, c, from as int)),
        r matches Some(i) ==> from <= i < x.len(),
{
    let mut i = from;
    while i < x.len()
        invariant
            from <= i,
            first_char(x@, c, from as int) == first_char(x@, c, i as int),
        decreases x.len() - i,
    {
        if x[i] == c {
            return Some(i);
        }
        i = i + 1;
    }
    None
}

/// The first index at or after `from` where `needle` occurs.
pub fn find_from(x: &[char], needle: &[char], from: usize) -> (r: Option<usize>)
    ensures
        same_index(r, first_match(x@, needle@, from as int)),
        r matches Some(i) ==> from <= i && i + needle.len() <= x.len(),
{
    let mut i = from;
    while i < x.len()
        invariant
            from <= i,
            i <= x.len() || i == from,
            first_match(x@, needle@, from as int) == first_match(x@, needle@, i as int),
        decreases x.len() - i,
    {
        if needle.len() > x.len() - i {
            return None;
        }
        if matches_at(x, needle, i) {
            return Some(i);
        }
        i = i + 1;
    }
    if i == x.len() && needle.len() == 0 {
        assert(x@.subrange(i as int, i as int) =~= needle@);
        Some(i)
    } else {
        None
    }
}

/// Whether `needle` occurs in `x`.
pub fn contains_chars(x: &[char], needle: &[char]) -> (r: bool)
    ensures
        r == seq_contains(x@, needle@),
{
    let f = find_from(x, needle, 0);
    proof {
        lemma_first_match(x@, needle@, 0);
    }
    f.is_some()
}

/// Whether the string `hay` contains `needle`.
pub fn str_contains(hay: &str, needle: &str) -> (r: bool)
    ensures
        r == seq_contains(hay@, needle@),
{
    let h = chars_of(hay);
    let n = chars_of(needle);
    contains_chars(h.as_slice(), n.as_slice())
}

/// Whether `x` begins with `prefix`.
pub fn starts_with_chars(x: &[char], prefix: &[char]) -> (r: bool)
    ensures
        r == seq_starts_with(x@, prefix@),
{
    matches_at(x, prefix, 0)
}

/// The characters `x[a..b]`.
pub fn slice_chars(x: &[char], a: usize, b: usize) -> (r: Vec<char>)
    requires
        a <= b <= x.len(),
    ensures
        r@ == x@.subrange(a as int, b as int),
{
    let mut out: Vec<char> = Vec::new();
    let mut i = a;
    while i < b
        invariant
            a <= i <= b <= x.len(),
            out@ == x@.subrange(a as int, i as int),
        decreases b - i,
    {
        out.push(x[i]);
        i = i + 1;
    }
    out
}

/// `char::is_whitespace`.
pub fn is_whitespace(c: char) -> (r: bool)
    ensures
        r == is_ws(c),
{
    c == '\t' || c == '\n' || c == '\u{0B}' || c == '\u{0C}' || c == '\r' || c == ' '
        || c == '\u{85}' || c == '\u{A0}' || c == '\u{1680}'
        || ('\u{2000}' <= c && c <= '\u{200A}')
        || c == '\u{2028}' || c == '\u{2029}' || c == '\u{202F}' || c == '\u{205F}' || c == '\u{3000}'
}

/// `u8::is_ascii_whitespace`, on a character.
pub fn is_ascii_whitespace(c: char) -> (r: bool)
    ensures
        r == is_ascii_ws(c),
{
    c == ' ' || c == '\t' || c == '\n' || c == '\u{0C}' || c == '\r'
}

/// `x` with every whitespace character removed.
pub fn remove_whitespace(x: &[char]) -> (r: Vec<char>)
    ensures
        r@ == strip_ws(x@),
{
    let mut out: Vec<char> = Vec::new();
    let mut i: usize = 0;
    while i < x.len()
        invariant
            0 <= i <= x.len(),
            out@ == strip_ws(x@.subrange(0, i as int)),
        decreases x.len() - i,
    {
        proof {
            let s = x@.subrange(0, i + 1);
            assert(s.drop_last() =~= x@.subrange(0, i as int));
            assert(s.last() == x@[i as int]);
        }
        if !is_whitespace(x[i]) {
            out.push(x[i]);
        }
        i = i + 1;
    }
    assert(x@.subrange(0, x.len() as int) =~= x@);
    out
}

/// `str::trim` on a character sequence.
pub fn trim_chars(x: &[char]) -> (r: Vec<char>)
    ensures
        r@ == trim(x@),
{
    let mut s: usize = 0;
    while s < x.len() && is_whitespace(x[s])
        invariant
            0 <= s <= x.len(),
            skip_ws_fwd(x@, 0) == skip_ws_fwd(x@, s as int),
        decreases x.len() - s,
    {
        s = s + 1;
    }
    let mut e: usize = x.len();
    while e > 0 && is_whitespace(x[e - 1])
        invariant
            0 <= e <= x.len(),
            skip_ws_back(x@, x.len() as int) == skip_ws_back(x@, e as int),
        decreases e,
    {
        e = e - 1;
    }
    if s >= e {
        Vec::new()
    } else {
        slice_chars(x, s, e)
    }
}

/// Whether every character is an ASCII decimal digit.
pub open spec fn all_digits(d: Seq<char>) -> bool {
    forall|i: int| 0 <= i < d.len() ==> '0' <= #[trigger] d[i] <= '9'
}

/// The decimal value of a digit string.
pub open spec fn decimal_value(d: Seq<char>) -> nat
    decreases d.len(),
{
    if d.len() == 0 {
        0
    } else {
        decimal_value(d.drop_last()) * 10 + ((d.last() as int - 48) as nat)
    }
}

/// `u16::from_str`: an optional `+`, then one or more ASCII digits whose value
/// fits in 16 bits.
pub open spec fn parsed_u16(s: Seq<char>) -> Option<u16> {
    let digits = if s.len() > 0 && s[0] == '+' { s.drop_first() } else { s };
    if digits.len() == 0 || !all_digits(digits) || decimal_value(digits) > 65535 {
        None
    } else {
        Some(decimal_value(digits) as u16)
    }
}

/// A digit string's value is at least the value of any of its prefixes.
proof fn lemma_decimal_prefix(d: Seq<char>, i: int)
    requires
        0 <= i <= d.len(),
        all_digits(d),
    ensures
        decimal_value(d.subrange(0, i)) <= decimal_value(d),
    decreases d.len(),
{
    if i < d.len() {
        let p = d.drop_last();
        assert(all_digits(p)) by {
            assert forall|k: int| 0 <= k < p.len() implies '0' <= #[trigger] p[k] <= '9' by {
                assert(p[k] == d[k]);
            }
        }
        lemma_decimal_prefix(p, i);
        assert(p.subrange(0, i) =~= d.subrange(0, i));
        let v = decimal_value(p);
        assert(v * 10 >= v) by (nonlinear_arith);
    } else {
        assert(d.subrange(0, i) =~= d);
    }
}

/// Parse an unsigned 16-bit decimal (`str::parse::<u16>`).
pub fn parse_u16(s: &str) -> (r: Option<u16>)
    ensures
        r == parsed_u16(s@),
{
    let cs = chars_of(s);
    let start: usize = if cs.len() > 0 && cs[0] == '+' { 1 } else { 0 };
    let digits = slice_chars(cs.as_slice(), start, cs.len());
    assert(start == 1 ==> digits@ =~= s@.drop_first());
    assert(start == 0 ==> digits@ =~= s@);
    assert(digits@ == (if s@.len() > 0 && s@[0] == '+' { s@.drop_first() } else { s@ }));
    if digits.len() == 0 {
        return None;
    }
    let mut i: usize = 0;
    while i < digits.len()
        invariant
            i <= digits.len(),
            digits@ == (if s@.len() > 0 && s@[0] == '+' { s@.drop_first() } else { s@ }),
            forall|k: int| 0 <= k < i ==> '0' <= #[trigger] digits@[k] <= '9',
        decreases digits.len() - i,
    {
        if !('0' <= digits[i] && digits[i] <= '9') {
            assert(!all_digits(digits@));
            return None;
        }
        i = i + 1;
    }
    assert(all_digits(digits@));
    let mut v: u32 = 0;
    let mut j: usize = 0;
    while j < digits.len()
        invariant
            j <= digits.len(),
            digits.len() > 0,
            digits@ == (if s@.len() > 0 && s@[0] == '+' { s@.drop_first() } else { s@ }),
            all_digits(digits@),
            v as nat == decimal_value(digits@.subrange(0, j as int)),
            v <= 65535,
        decreases digits.len() - j,
    {
        assert(digits@.subrange(0, j + 1).drop_last() =~= digits@.subrange(0, j as int));
        let digit = (digits[j] as u32) - 48;
        let next = v * 10 + digit;
        assert(digits@.subrange(0, j + 1).last() == digits@[j as int]);
        assert(next as nat == decimal_value(digits@.subrange(0, j + 1)));
        if next > 65535 {
            proof {
                lemma_decimal_prefix(digits@, j + 1);
            }
            return None;
        }
        v = next;
        j = j + 1;
    }
    assert(digits@.subrange(0, j as int) =~= digits@);
    Some(v as u16)
}

/// `u32::from_str`: an optional `+`, then one or more ASCII digits whose value
/// fits in 32 bits.
pub open spec fn parsed_u32(s: Seq<char>) -> Option<u32> {
    let digits = if s.len() > 0 && s[0] == '+' { s.drop_first() } else { s };
    if digits.len() == 0 || !all_digits(digits) || decimal_value(digits) > 4294967295 {
        None
    } else {
        Some(decimal_value(digits) as u32)
    }
}

/// Parse an unsigned 32-bit decimal (`str::parse::<u32>`).
pub fn parse_u32(s: &str) -> (r: Option<u32>)
    ensures
        r == parsed_u32(s@),
{
    let cs = chars_of(s);
    let start: usize = if cs.len() > 0 && cs[0] == '+' { 1 } else { 0 };
    let digits = slice_chars(cs.as_slice(), start, cs.len());
    assert(start == 1 ==> digits@ =~= s@.drop_first());
    assert(start == 0 ==> digits@ =~= s@);
    assert(digits@ == (if s@.len() > 0 && s@[0] == '+' { s@.drop_first() } else { s@ }));
    if digits.len() == 0 {
        return None;
    }
    let mut i: usize = 0;
    while i < digits.len()
        invariant
            i <= digits.len(),
            digits@ == (if s@.len() > 0 && s@[0] == '+' { s@.drop_first() } else { s@ }),
            forall|k: int| 0 <= k < i ==> '0' <= #[trigger] digits@[k] <= '9',
        decreases digits.len() - i,
    {
        if !('0' <= digits[i] && digits[i] <= '9') {
            assert(!all_digits(digits@));
            return None;
        }
        i = i + 1;
    }
    assert(all_digits(digits@));
    let mut v: u64 = 0;
    let mut j: usize = 0;
    while j < digits.len()
        invariant
            j <= digits.len(),
            digits.len() > 0,
            digits@ == (if s@.len() > 0 && s@[0] == '+' { s@.drop_first() } else { s@ }),
            all_digits(digits@),
            v as nat == decimal_value(digits@.subrange(0, j as int)),
            v <= 4294967295,
        decreases digits.len() - j,
    {
        assert(digits@.subrange(0, j + 1).drop_last() =~= digits@.subrange(0, j as int));
        let digit = (digits[j] as u64) - 48;
        let next = v * 10 + digit;
        assert(digits@.subrange(0, j + 1).last() == digits@[j as int]);
        assert(next as nat == decimal_value(digits@.subrange(0, j + 1)));
        if next > 4294967295 {
            proof {
                lemma_decimal_prefix(digits@, j + 1);
            }
            return None;
        }
        v = next;
        j = j + 1;
    }
    assert(digits@.subrange(0, j as int) =~= digits@);
    Some(v as u32)
}

/// The views of a slice of string slices.
pub open spec fn strs_view(ids: Seq<&str>) -> Seq<Seq<char>> {
    Seq::new(ids.len(), |i: int| ids[i]@)
}

/// The views of a sequence of owned strings.
pub open spec fn strings_view(ids: Seq<String>) -> Seq<Seq<char>> {
    Seq::new(ids.len(), |i: int| ids[i]@)
}

/// Appending a string appends its view.
pub proof fn lemma_strings_view_push(v: Seq<String>, s: String)
    ensures
        strings_view(v.push(s)) == strings_view(v).push(s@),
{
    assert(strings_view(v.push(s)) =~= strings_view(v).push(s@));
}

/// Owned copies of a list of string slices.
pub fn strs_to_strings(v: &[&str]) -> (r: Vec<String>)
    ensures
        strings_view(r@) == strs_view(v@),
{
    let mut out: Vec<String> = Vec::new();
    let mut i: usize = 0;
    while i < v.len()
        invariant
            i <= v.len(),
            out.len() == i,
            strings_view(out@) == strs_view(v@.subrange(0, i as int)),
        decreases v.len() - i,
    {
        let ghost before = out@;
        let c = to_owned_string(v[i]);
        out.push(c);
        assert(out@ == before.push(c));
        assert forall|k: int| 0 <= k < out@.len() implies #[trigger] out@[k]@ == strs_view(v@.subrange(0, i + 1))[k] by {
            if k < i {
                assert(out@[k] == before[k]);
                assert(strings_view(before)[k] == strs_view(v@.subrange(0, i as int))[k]);
            }
        }
        assert(strings_view(out@) =~= strs_view(v@.subrange(0, i + 1)));
        i = i + 1;
    }
    assert(v@.subrange(0, i as int) =~= v@);
    out
}

/// Owned copies of a list of owned strings, in order.
pub fn strings_clone(v: &[String]) -> (r: Vec<String>)
    ensures
        strings_view(r@) == strings_view(v@),
{
    let mut out: Vec<String> = Vec::new();
    let mut i: usize = 0;
    while i < v.len()
        invariant
            i <= v.len(),
            out.len() == i,
            strings_view(out@) == strings_view(v@.subrange(0, i as int)),
        decreases v.len() - i,
    {
        let ghost before = out@;
        let c = to_owned_string(v[i].as_str());
        out.push(c);
        assert(out@ == before.push(c));
        assert forall|k: int| 0 <= k < out@.len() implies #[trigger] out@[k]@ == strings_view(v@.subrange(0, i + 1))[k] by {
            if k < i {
                assert(out@[k] == before[k]);
                assert(strings_view(before)[k] == strings_view(v@.subrange(0, i as int))[k]);
            }
        }
        assert(strings_view(out@) =~= strings_view(v@.subrange(0, i + 1)));
        i = i + 1;
    }
    assert(v@.subrange(0, i as int) =~= v@);
    out
}

/// The view of an optional string slice.
pub open spec fn opt_str_view(o: Option<&str>) -> Option<Seq<char>> {
    match o {
        Some(s) => Some(s@),
        None => None,
    }
}

/// The view of an optional owned string.
pub open spec fn opt_string_view(o: Option<String>) -> Option<Seq<char>> {
    match o {
        Some(s) => Some(s@),
        None => None,
    }
}

/// An owned copy of an optional string slice.
pub fn opt_str_to_owned(o: Option<&str>) -> (r: Option<String>)
    ensures
        opt_string_view(r) == opt_str_view(o),
{
    match o {
        Some(s) => Some(to_owned_string(s)),
        None => None,
    }
}

/// The decimal digit for `d` (which is below ten).
pub open spec fn digit_char(d: int) -> char {
    if d == 0 {
        '0'
    } else if d == 1 {
        '1'
    } else if d == 2 {
        '2'
    } else if d == 3 {
        '3'
    } else if d == 4 {
        '4'
    } else if d == 5 {
        '5'
    } else if d == 6 {
        '6'
    } else if d == 7 {
        '7'
    } else if d == 8 {
        '8'
    } else {
        '9'
    }
}

/// The decimal notation of `n`, without leading zeros.
pub open spec fn decimal_text(n: nat) -> Seq<char>
    decreases n,
{
    if n < 10 {
        seq![digit_char(n as int)]
    } else {
        decimal_text(n / 10).push(digit_char((n % 10) as int))
    }
}

/// The decimal digit character for `d`.
fn digit_of(d: usize) -> (c: char)
    requires
        d < 10,
    ensures
        c == digit_char(d as int),
{
    match d {
        0 => '0',
        1 => '1',
        2 => '2',
        3 => '3',
        4 => '4',
        5 => '5',
        6 => '6',
        7 => '7',
        8 => '8',
        _ => '9',
    }
}

/// The decimal notation of `n`.
pub fn decimal_string(n: usize) -> (r: String)
    ensures
        r@ == decimal_text(n as nat),
    decreases n,
{
    if n < 10 {
        let mut s = String::new();
        string_push(&mut s, digit_of(n));
        assert(s@ =~= seq![digit_char(n as int)]);
        s
    } else {
        let mut s = decimal_string(n / 10);
        string_push(&mut s, digit_of(n % 10));
        s
    }
}

/// The decimal notation of a 64-bit `n`.
pub fn decimal_string_u64(n: u64) -> (r: String)
    ensures
        r@ == decimal_text(n as nat),
    decreases n,
{
    if n < 10 {
        let mut s = String::new();
        string_push(&mut s, digit_of(n as usize));
        assert(s@ =~= seq![digit_char(n as int)]);
        s
    } else {
        let mut s = decimal_string_u64(n / 10);
        string_push(&mut s, digit_of((n % 10) as usize));
        s
    }
}

/// The decimal notation of a signed `t`: a minus sign before the magnitude
/// of a negative number.
pub open spec fn signed_decimal_text(t: int) -> Seq<char> {
    if t < 0 {
        seq!['-'] + decimal_text((-t) as nat)
    } else {
        decimal_text(t as nat)
    }
}

/// The decimal notation of a 128-bit `n`.
pub fn decimal_string_u128(n: u128) -> (r: String)
    ensures
        r@ == decimal_text(n as nat),
    decreases n,
{
    if n < 10 {
        let mut s = String::new();
        string_push(&mut s, digit_of(n as usize));
        assert(s@ =~= seq![digit_char(n as int)]);
        s
    } else {
        let mut s = decimal_string_u128(n / 10);
        string_push(&mut s, digit_of((n % 10) as usize));
        s
    }
}

/// The decimal notation of a signed 128-bit `t`.
pub fn decimal_string_i128(t: i128) -> (r: String)
    ensures
        r@ == signed_decimal_text(t as int),
{
    if t < 0 {
        let below: u128 = (-(t + 1)) as u128;
        let magnitude: u128 = below + 1;
        let digits = decimal_string_u128(magnitude);
        let mut s = String::new();
        string_push(&mut s, '-');
        push_str(&mut s, digits.as_str());
        assert(s@ =~= seq!['-'] + decimal_text((-(t as int)) as nat));
        s
    } else {
        decimal_string_u128(t as u128)
    }
}

/// The text `{:?}` prints for a string: the characters in double quotes,
/// with quotes, backslashes, control and non-printable characters escaped.
pub uninterp spec fn debug_text(s: Seq<char>) -> Seq<char>;

/// The `Debug` rendering of a string slice (std `<str as Debug>::fmt`).
#[verifier::external_body]
pub(crate) fn debug_quoted(s: &str) -> (r: String)
    ensures
        r@ == debug_text(s@),
{
    format!("{s:?}")
}

/// The `{:?}` rendering of a list of strings: `[` then the quoted entries
/// separated by `, ` then `]`.
pub open spec fn debug_list_text(v: Seq<Seq<char>>) -> Seq<char> {
    seq!['['] + debug_items_text(v) + seq![']']
}

/// The quoted entries of a list, separated by `, `.
pub open spec fn debug_items_text(v: Seq<Seq<char>>) -> Seq<char>
    decreases v.len(),
{
    if v.len() == 0 {
        Seq::empty()
    } else if v.len() == 1 {
        debug_text(v[0])
    } else {
        debug_items_text(v.drop_last()) + seq![',', ' '] + debug_text(v.last())
    }
}

/// The `{:?}` rendering of a list of owned strings.
pub fn debug_list(v: &Vec<String>) -> (r: String)
    ensures
        r@ == debug_list_text(strings_view(v@)),
{
    let mut out = String::new();
    string_push(&mut out, '[');
    let mut i: usize = 0;
    while i < v.len()
        invariant
            i <= v.len(),
            out@ == seq!['['] + debug_items_text(strings_view(v@).subrange(0, i as int)),
        decreases v.len() - i,
    {
        let ghost before = out@;
        if i > 0 {
            string_push(&mut out, ',');
            string_push(&mut out, ' ');
        }
        let q = debug_quoted(v[i].as_str());
        push_str(&mut out, q.as_str());
        proof {
            let sv = strings_view(v@);
            assert(sv.subrange(0, i + 1).drop_last() =~= sv.subrange(0, i as int));
            assert(sv.subrange(0, i + 1).last() == v@[i as int]@);
            if i == 0 {
                assert(sv.subrange(0, 0) =~= Seq::<Seq<char>>::empty());
                assert(out@ =~= seq!['['] + debug_items_text(sv.subrange(0, i + 1)));
            } else {
                assert(out@ =~= seq!['['] + debug_items_text(sv.subrange(0, i + 1)));
            }
        }
        i = i + 1;
    }
    string_push(&mut out, ']');
    assert(strings_view(v@).subrange(0, i as int) =~= strings_view(v@));
    out
}

} // verus!
