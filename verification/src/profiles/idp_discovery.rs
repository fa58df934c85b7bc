//! SAML 2.0 Identity Provider Discovery.
//!
//! Two mechanisms are implemented:
//! - SAML Profiles section 4.3 (Common Domain Cookie): a `_saml_idp` cookie in
//!   a common domain lists the IdPs that authenticated the user, most recent
//!   last.
//! - The Identity Provider Discovery Service Protocol and Profile: the SP
//!   redirects the browser to a discovery service with `entityID`, `return`,
//!   `returnIDParam`, `policy` and `isPassive` query parameters; the service
//!   redirects back with the chosen IdP. The `return` URL must match one of
//!   the SP's registered `idpdisc:DiscoveryResponse` endpoints.

use vstd::prelude::*;
use vstd::utf8::*;
use crate::encoding::{
    base64_encoding, base64_url_nopad_decode, lemma_base64_encoding_empty, base64_url_nopad_decoding, base64_url_nopad_encode,
    parse_query_string_raw, query_pairs_from, string_from_utf8, string_pairs_view, url_decode,
    url_decoding, utf8_bytes,
};
use crate::profiles::error::ProfileError;
use crate::xml::{attribute_value, element_is, get_attribute, namespace_is, parse_xml, parsed_document_element, XmlElement, XmlNode};
use crate::text::{
    chars_eq, chars_of, find_char_from, first_char, last_char_before, lemma_first_char,
    push_str, seq_contains, seq_starts_with, slice_chars, starts_with_chars, str_contains, str_eq,
    string_of, string_push, strings_view, strs_view, opt_string_view, to_owned_string, parse_u16, parsed_u16, trim, trim_chars,
};

verus! {

/// The standard cookie name for SAML IdP Discovery.
pub const COMMON_DOMAIN_COOKIE_NAME: &'static str = "_saml_idp";

/// Namespace of the `idpdisc:DiscoveryResponse` metadata extension, also used
/// as the Binding value on DiscoveryResponse endpoints.
pub const IDPDISC_NS: &'static str = "urn:oasis:names:tc:SAML:profiles:SSO:idp-discovery-protocol";

/// The single-IdP discovery protocol policy URI (the default policy).
pub const DISCOVERY_POLICY_SINGLE: &'static str = "urn:oasis:names:tc:SAML:profiles:SSO:idp-discovery-protocol:single";

/// Default name of the query parameter carrying the chosen IdP entity ID.
pub const DEFAULT_RETURN_ID_PARAM: &'static str = "entityID";

// ── Common Domain Cookie ────────────────────────────────────────────────────

/// The cookie token of an entity ID: base64url (unpadded) of its UTF-8 bytes.
pub open spec fn entity_token(id: Seq<char>) -> Seq<char> {
    base64_encoding(true, false, encode_utf8(id))
}

/// The entity ID a cookie token decodes to, if it is base64url of UTF-8.
pub open spec fn token_entity_id(token: Seq<char>) -> Option<Seq<char>> {
    match base64_url_nopad_decoding(token) {
        Some(bytes) => if valid_utf8(bytes) {
            Some(decode_utf8(bytes))
        } else {
            None
        },
        None => None,
    }
}

/// Encode an IdP entity ID for inclusion in the Common Domain Cookie.
///
/// The value is base64url-encoded (no padding) per the SAML profiles spec.
pub fn encode_idp_entity_id(entity_id: &str) -> (r: String)
    ensures
        r@ == entity_token(entity_id@),
        token_entity_id(r@) == Some(entity_id@),
{
    let bytes = utf8_bytes(entity_id);
    let r = base64_url_nopad_encode(bytes.as_slice());
    proof {
        encode_utf8_valid_utf8(entity_id@);
        encode_utf8_decode_utf8(entity_id@);
    }
    r
}

/// Decode an IdP entity ID from the Common Domain Cookie.
pub fn decode_idp_entity_id(encoded: &str) -> (r: Result<String, ProfileError>)
    ensures
        match r {
            Ok(s) => token_entity_id(encoded@) == Some(s@) && (encoded@.len() > 0 ==> s@.len() > 0),
            Err(e) => token_entity_id(encoded@) is None && e == ProfileError::InvalidCommonDomainCookie,
        },
{
    match base64_url_nopad_decode(encoded) {
        Some(bytes) => match string_from_utf8(bytes) {
            Some(s) => {
                proof {
                    encode_utf8_decode_utf8(s@);
                    lemma_base64_encoding_empty(true, false, encode_utf8(s@));
                }
                Ok(s)
            },
            None => Err(ProfileError::InvalidCommonDomainCookie),
        },
        None => Err(ProfileError::InvalidCommonDomainCookie),
    }
}

/// Tokens joined with single spaces.
pub open spec fn join_spaces(ts: Seq<Seq<char>>) -> Seq<char>
    decreases ts.len(),
{
    if ts.len() == 0 {
        Seq::empty()
    } else if ts.len() == 1 {
        ts[0]
    } else {
        join_spaces(ts.drop_last()) + seq![' '] + ts.last()
    }
}

/// The cookie value listing these entity IDs.
pub open spec fn cookie_value_of(ids: Seq<Seq<char>>) -> Seq<char> {
    join_spaces(Seq::new(ids.len(), |i: int| entity_token(ids[i])))
}

/// The entity IDs listed by `v[0..end]`: each non-empty space-separated token
/// decoded; `None` when some token does not decode.
pub open spec fn cookie_ids(v: Seq<char>, end: int) -> Option<Seq<Seq<char>>>
    decreases end,
{
    if end <= 0 || end > v.len() {
        Some(Seq::empty())
    } else {
        let sp = last_char_before(v, ' ', end);
        let start = match sp {
            Some(i) => i + 1,
            None => 0,
        };
        let rest = match sp {
            Some(i) => if 0 <= i < end { cookie_ids(v, i) } else { Some(Seq::empty()) },
            None => Some(Seq::empty()),
        };
        let token = v.subrange(start, end);
        if token.len() == 0 {
            rest
        } else {
            match (rest, token_entity_id(token)) {
                (Some(ids), Some(id)) => Some(ids.push(id)),
                _ => None,
            }
        }
    }
}

/// The entity IDs a cookie value lists (`None` when it is invalid).
pub open spec fn cookie_entity_ids(v: Seq<char>) -> Option<Seq<Seq<char>>> {
    cookie_ids(v, v.len() as int)
}

/// A base64 digit is never a space.
proof fn lemma_base64_no_space(b: Seq<u8>)
    ensures
        !base64_encoding(true, false, b).contains(' '),
        b.len() > 0 ==> base64_encoding(true, false, b).len() > 0,
    decreases b.len(),
{
    if b.len() >= 3 {
        lemma_base64_no_space(b.subrange(3, b.len() as int));
    }
}

/// Entity tokens are non-empty for non-empty IDs and never hold a space.
proof fn lemma_entity_token(id: Seq<char>)
    ensures
        !entity_token(id).contains(' '),
        id.len() > 0 ==> entity_token(id).len() > 0,
{
    lemma_base64_no_space(encode_utf8(id));
    if id.len() > 0 {
        assert(encode_utf8(id).len() > 0);
    }
}

/// `last_char_before` finds the last occurrence before `j`.
proof fn lemma_last_char_before(x: Seq<char>, c: char, j: int)
    requires
        0 <= j <= x.len(),
    ensures
        last_char_before(x, c, j) matches Some(k) ==> 0 <= k < j && x[k] == c
            && forall|m: int| k < m < j ==> x[m] != c,
        last_char_before(x, c, j) is None ==> forall|m: int| 0 <= m < j ==> x[m] != c,
    decreases j,
{
    if j > 0 && x[j - 1] != c {
        lemma_last_char_before(x, c, j - 1);
    }
}

/// `last_char_before` only reads the characters before `j`.
proof fn lemma_last_char_before_prefix(x: Seq<char>, y: Seq<char>, c: char, j: int)
    requires
        0 <= j <= x.len(),
        j <= y.len(),
        x.subrange(0, j) == y.subrange(0, j),
    ensures
        last_char_before(x, c, j) == last_char_before(y, c, j),
    decreases j,
{
    if j > 0 {
        assert(x[j - 1] == x.subrange(0, j)[j - 1]);
        assert(y[j - 1] == y.subrange(0, j)[j - 1]);
        assert(x.subrange(0, j - 1) =~= x.subrange(0, j).subrange(0, j - 1));
        assert(y.subrange(0, j - 1) =~= y.subrange(0, j).subrange(0, j - 1));
        lemma_last_char_before_prefix(x, y, c, j - 1);
    }
}

/// `cookie_ids` only reads the characters before `end`.
proof fn lemma_cookie_ids_prefix(x: Seq<char>, y: Seq<char>, end: int)
    requires
        0 <= end <= x.len(),
        end <= y.len(),
        x.subrange(0, end) == y.subrange(0, end),
    ensures
        cookie_ids(x, end) == cookie_ids(y, end),
    decreases end,
{
    if end > 0 {
        lemma_last_char_before_prefix(x, y, ' ', end);
        lemma_last_char_before(x, ' ', end);
        let sp = last_char_before(x, ' ', end);
        let start = match sp {
            Some(i) => i + 1,
            None => 0,
        };
        assert(x.subrange(start, end) =~= x.subrange(0, end).subrange(start, end));
        assert(y.subrange(start, end) =~= y.subrange(0, end).subrange(start, end));
        if let Some(i) = sp {
            assert(x.subrange(0, i) =~= x.subrange(0, end).subrange(0, i));
            assert(y.subrange(0, i) =~= y.subrange(0, end).subrange(0, i));
            lemma_cookie_ids_prefix(x, y, i);
        }
    }
}

/// Appending ` token` (or starting with `token`) adds its decoding.
proof fn lemma_cookie_ids_append(p: Seq<char>, t: Seq<char>)
    requires
        t.len() > 0,
        !t.contains(' '),
    ensures
        ({
            let v = if p.len() == 0 { t } else { p + seq![' '] + t };
            cookie_entity_ids(v) == match (cookie_entity_ids(p), token_entity_id(t)) {
                (Some(ids), Some(id)) => Some(ids.push(id)),
                _ => None,
            }
        }),
{
    let v = if p.len() == 0 { t } else { p + seq![' '] + t };
    lemma_last_char_before(v, ' ', v.len() as int);
    if p.len() == 0 {
        assert forall|m: int| 0 <= m < v.len() implies v[m] != ' ' by {
            assert(t.contains(t[m]));
        }
        assert(last_char_before(v, ' ', v.len() as int) is None) by {
            if let Some(k) = last_char_before(v, ' ', v.len() as int) {
                assert(v[k] == ' ');
            }
        }
        assert(v.subrange(0, v.len() as int) =~= t);
        assert(cookie_entity_ids(p) == Some(Seq::<Seq<char>>::empty()));
        assert(Seq::<Seq<char>>::empty().push(token_entity_id(t)->0) =~= seq![token_entity_id(t)->0]);
    } else {
        let i = p.len() as int;
        assert(v[i] == ' ');
        assert(last_char_before(v, ' ', v.len() as int) == Some(i)) by {
            if let Some(k) = last_char_before(v, ' ', v.len() as int) {
                if k > i {
                    assert(v[k] == t[k - i - 1]);
                    assert(t.contains(t[k - i - 1]));
                }
                if k < i {
                    assert(v[i] != ' ');
                }
            }
        }
        assert(v.subrange(i + 1, v.len() as int) =~= t);
        assert(v.subrange(0, i) =~= p.subrange(0, i));
        lemma_cookie_ids_prefix(v, p, i);
        assert(p.subrange(0, i) =~= p);
    }
}

/// Build the cookie value from a list of IdP entity IDs.
///
/// Each entity ID is base64url-encoded and separated by spaces. When every
/// ID is non-empty, parsing the value gives the list back.
pub fn build_cookie_value(idp_entity_ids: &[&str]) -> (r: String)
    ensures
        r@ == cookie_value_of(strs_view(idp_entity_ids@)),
        (forall|i: int| 0 <= i < idp_entity_ids@.len() ==> (#[trigger] idp_entity_ids@[i])@.len() > 0)
            ==> cookie_entity_ids(r@) == Some(strs_view(idp_entity_ids@)),
{
    let ghost ids = strs_view(idp_entity_ids@);
    let ghost tokens = Seq::new(ids.len(), |i: int| entity_token(ids[i]));
    let mut out = String::new();
    let mut i: usize = 0;
    while i < idp_entity_ids.len()
        invariant
            i <= idp_entity_ids.len(),
            ids == strs_view(idp_entity_ids@),
            tokens == Seq::new(ids.len(), |k: int| entity_token(ids[k])),
            out@ == join_spaces(tokens.subrange(0, i as int)),
            (forall|k: int| 0 <= k < i ==> (#[trigger] ids[k]).len() > 0)
                ==> cookie_entity_ids(out@) == Some(ids.subrange(0, i as int)),
        decreases idp_entity_ids.len() - i,
    {
        let token = encode_idp_entity_id(idp_entity_ids[i]);
        let ghost prev = out@;
        if i > 0 {
            string_push(&mut out, ' ');
        }
        push_str(&mut out, token.as_str());
        proof {
            let sub = tokens.subrange(0, i + 1);
            assert(sub.drop_last() =~= tokens.subrange(0, i as int));
            assert(token@ == tokens[i as int]);
            if i == 0 {
                assert(out@ =~= token@);
                assert(join_spaces(sub) == sub[0]);
            } else {
                assert(out@ =~= prev + seq![' '] + token@);
            }
            assert(out@ == join_spaces(sub));
            if forall|k: int| 0 <= k < i + 1 ==> (#[trigger] ids[k]).len() > 0 {
                assert(ids[i as int].len() > 0);
                lemma_entity_token(ids[i as int]);
                if i == 0 {
                    assert(prev.len() == 0);
                } else {
                    assert(tokens.subrange(0, i as int).len() > 0);
                    assert(join_spaces(tokens.subrange(0, i as int)).len() > 0) by {
                        lemma_join_nonempty(tokens.subrange(0, i as int));
                        lemma_entity_token(ids[0]);
                    }
                }
                lemma_cookie_ids_append(prev, token@);
                assert(ids.subrange(0, i as int).push(ids[i as int]) =~= ids.subrange(0, i + 1));
            }
        }
        i = i + 1;
    }
    assert(tokens.subrange(0, i as int) =~= tokens);
    assert(ids.subrange(0, i as int) =~= ids);
    out
}

/// A join of tokens whose first token is non-empty is non-empty.
proof fn lemma_join_nonempty(ts: Seq<Seq<char>>)
    requires
        ts.len() > 0,
        ts[0].len() > 0,
    ensures
        join_spaces(ts).len() > 0,
    decreases ts.len(),
{
    if ts.len() > 1 {
        lemma_join_nonempty(ts.drop_last());
    }
}

/// Prepends the known result of a suffix to the parse of a prefix.
pub open spec fn ids_then(o: Option<Seq<Seq<char>>>, tail: Seq<Seq<char>>) -> Option<Seq<Seq<char>>> {
    match o {
        Some(ids) => Some(ids + tail),
        None => None,
    }
}

/// Parse the cookie value to extract the list of IdP entity IDs.
pub fn parse_cookie_value(cookie_value: &str) -> (r: Result<Vec<String>, ProfileError>)
    ensures
        match r {
            Ok(ids) => cookie_entity_ids(cookie_value@) == Some(strings_view(ids@)) && forall|i: int|
                0 <= i < ids@.len() ==> (#[trigger] ids@[i])@.len() > 0,
            Err(e) => cookie_entity_ids(cookie_value@) is None && e == ProfileError::InvalidCommonDomainCookie,
        },
{
    let v = chars_of(cookie_value);
    let mut ids: Vec<String> = Vec::new();
    let mut end: usize = v.len();
    assert(strings_view(ids@) =~= Seq::<Seq<char>>::empty());
    proof {
        match cookie_ids(v@, v.len() as int) {
            Some(a) => {
                assert(a + Seq::<Seq<char>>::empty() =~= a);
            },
            None => {},
        }
    }
    loop
        invariant
            end <= v.len(),
            v@ == cookie_value@,
            cookie_ids(v@, v.len() as int) == ids_then(cookie_ids(v@, end as int), strings_view(ids@)),
            forall|i: int| 0 <= i < ids@.len() ==> (#[trigger] ids@[i])@.len() > 0,
        decreases end,
    {
        if end == 0 {
            assert(Seq::<Seq<char>>::empty() + strings_view(ids@) =~= strings_view(ids@));
            return Ok(ids);
        }
        proof {
            lemma_last_char_before(v@, ' ', end as int);
        }
        let mut j: usize = end;
        while j > 0 && v[j - 1] != ' '
            invariant
                j <= end <= v.len(),
                last_char_before(v@, ' ', end as int) == last_char_before(v@, ' ', j as int),
            decreases j,
        {
            j = j - 1;
        }
        let token = slice_chars(v.as_slice(), j, end);
        if token.len() > 0 {
            let text = string_of(token.as_slice());
            match decode_idp_entity_id(text.as_str()) {
                Ok(id) => {
                    let ghost before = strings_view(ids@);
                    let ghost old_ids = ids@;
                    assert(text@.len() > 0);
                    ids.insert(0, id);
                    assert forall|i: int| 0 <= i < ids@.len() implies (#[trigger] ids@[i])@.len() > 0 by {
                        if i > 0 {
                            assert(ids@[i] == old_ids[i - 1]);
                        }
                    }
                    assert(strings_view(ids@) =~= seq![id@] + before);
                    proof {
                        let rest = if j == 0 { Some(Seq::<Seq<char>>::empty()) } else { cookie_ids(v@, j - 1) };
                        match rest {
                            Some(a) => {
                                assert(a.push(id@) + before =~= a + (seq![id@] + before));
                            },
                            None => {},
                        }
                    }
                },
                Err(e) => {
                    return Err(e);
                },
            }
        }
        if j == 0 {
            end = 0;
        } else {
            end = j - 1;
        }
    }
}

/// Get the most recently used IdP entity ID from the cookie.
///
/// The most recent IdP is the last entry in the cookie.
pub fn most_recent_idp(cookie_value: &str) -> (r: Result<Option<String>, ProfileError>)
    ensures
        match r {
            Ok(Some(id)) => cookie_entity_ids(cookie_value@) matches Some(ids) && ids.len() > 0
                && ids.last() == id@,
            Ok(None) => cookie_entity_ids(cookie_value@) == Some(Seq::<Seq<char>>::empty()),
            Err(e) => cookie_entity_ids(cookie_value@) is None && e == ProfileError::InvalidCommonDomainCookie,
        },
{
    let mut idps = parse_cookie_value(cookie_value)?;
    if idps.len() == 0 {
        assert(strings_view(idps@) =~= Seq::<Seq<char>>::empty());
    }
    Ok(idps.pop())
}

/// `ids` without any occurrence of `x`, order kept.
pub open spec fn without(ids: Seq<Seq<char>>, x: Seq<char>) -> Seq<Seq<char>>
    decreases ids.len(),
{
    if ids.len() == 0 {
        ids
    } else if ids.last() == x {
        without(ids.drop_last(), x)
    } else {
        without(ids.drop_last(), x).push(ids.last())
    }
}

/// The entity IDs a current cookie contributes (none when absent or empty).
pub open spec fn current_cookie_ids(current: Option<&str>) -> Option<Seq<Seq<char>>> {
    match current {
        Some(v) => if v@.len() > 0 {
            cookie_entity_ids(v@)
        } else {
            Some(Seq::empty())
        },
        None => Some(Seq::empty()),
    }
}

/// Add an IdP to the cookie value. If the IdP is already present, it is moved
/// to the end (most recent position).
pub fn add_idp_to_cookie(current_cookie: Option<&str>, idp_entity_id: &str) -> (r: Result<String, ProfileError>)
    ensures
        match r {
            Ok(s) => current_cookie_ids(current_cookie) matches Some(ids) && {
                let updated = without(ids, idp_entity_id@).push(idp_entity_id@);
                &&& s@ == cookie_value_of(updated)
                &&& idp_entity_id@.len() > 0 ==> cookie_entity_ids(s@) == Some(updated)
            },
            Err(e) => current_cookie_ids(current_cookie) is None && e == ProfileError::InvalidCommonDomainCookie,
        },
{
    let idps: Vec<String> = match current_cookie {
        Some(v) => {
            if v.is_empty() {
                Vec::new()
            } else {
                parse_cookie_value(v)?
            }
        },
        None => Vec::new(),
    };
    let ghost ids = strings_view(idps@);
    assert(ids.len() == 0 ==> ids =~= Seq::<Seq<char>>::empty());
    assert forall|k: int| 0 <= k < ids.len() implies (#[trigger] ids[k]).len() > 0 by {
        assert(ids[k] == idps@[k]@);
    }
    let mut refs: Vec<&str> = Vec::new();
    let mut i: usize = 0;
    while i < idps.len()
        invariant
            i <= idps.len(),
            ids == strings_view(idps@),
            strs_view(refs@) == without(ids.subrange(0, i as int), idp_entity_id@),
            (forall|m: int| 0 <= m < ids.len() ==> (#[trigger] ids[m]).len() > 0) ==> forall|k: int|
                0 <= k < refs.len() ==> (#[trigger] refs@[k])@.len() > 0,
        decreases idps.len() - i,
    {
        let id = idps[i].as_str();
        assert(ids.subrange(0, i + 1).drop_last() =~= ids.subrange(0, i as int));
        if !str_eq(id, idp_entity_id) {
            let ghost before = strs_view(refs@);
            let ghost old_refs = refs@;
            refs.push(id);
            assert(strs_view(refs@) =~= before.push(id@));
            assert(id@ == ids[i as int]);
            assert(forall|k: int| 0 <= k < old_refs.len() ==> refs@[k] == old_refs[k]);
        }
        i = i + 1;
    }
    let ghost kept = strs_view(refs@);
    refs.push(idp_entity_id);
    assert(ids.subrange(0, i as int) =~= ids);
    assert(strs_view(refs@) =~= kept.push(idp_entity_id@));
    let r = build_cookie_value(refs.as_slice());
    proof {
        if idp_entity_id@.len() > 0 && forall|k: int| 0 <= k < ids.len() ==> (#[trigger] ids[k]).len() > 0 {
            assert forall|k: int| 0 <= k < refs@.len() implies (#[trigger] refs@[k])@.len() > 0 by {
                if k < refs@.len() - 1 {
                    assert(refs@[k]@ == kept[k]);
                }
            }
        }
    }
    Ok(r)
}

// ── Return URLs ─────────────────────────────────────────────────────────────

/// Bytes left as they are by [`url_encode`]: `A-Z a-z 0-9 - _ . ~`.
pub open spec fn url_unreserved(b: u8) -> bool {
    (65 <= b <= 90) || (97 <= b <= 122) || (48 <= b <= 57) || b == 45 || b == 95 || b == 46 || b == 126
}

/// An upper-case hex digit.
pub open spec fn hex_upper(v: int) -> char {
    if v < 10 {
        (48 + v) as char
    } else {
        (55 + v) as char
    }
}

/// Percent-encoding of bytes: unreserved bytes as themselves, others `%HH`.
pub open spec fn url_encoding(b: Seq<u8>) -> Seq<char>
    decreases b.len(),
{
    if b.len() == 0 {
        Seq::empty()
    } else {
        url_encoding(b.drop_last()) + if url_unreserved(b.last()) {
            seq![b.last() as char]
        } else {
            seq!['%', hex_upper(b.last() as int / 16), hex_upper(b.last() as int % 16)]
        }
    }
}

/// An upper-case hex digit.
fn hex_digit(v: u8) -> (r: char)
    requires
        v < 16,
    ensures
        r == hex_upper(v as int),
{
    if v < 10 {
        (48 + v) as char
    } else {
        (55 + v) as char
    }
}

/// Simple URL encoding for the entity ID.
fn url_encode(s: &str) -> (r: String)
    ensures
        r@ == url_encoding(encode_utf8(s@)),
{
    let bytes = utf8_bytes(s);
    let mut result = String::new();
    let mut i: usize = 0;
    while i < bytes.len()
        invariant
            i <= bytes.len(),
            result@ == url_encoding(bytes@.subrange(0, i as int)),
        decreases bytes.len() - i,
    {
        let byte = bytes[i];
        assert(bytes@.subrange(0, i + 1).drop_last() =~= bytes@.subrange(0, i as int));
        if (65 <= byte && byte <= 90) || (97 <= byte && byte <= 122) || (48 <= byte && byte <= 57)
            || byte == 45 || byte == 95 || byte == 46 || byte == 126 {
            string_push(&mut result, byte as char);
        } else {
            string_push(&mut result, '%');
            string_push(&mut result, hex_digit(byte / 16));
            string_push(&mut result, hex_digit(byte % 16));
        }
        i = i + 1;
    }
    assert(bytes@.subrange(0, i as int) =~= bytes@);
    result
}

/// The discovery return URL: `sp_return_url`, `?` or `&` (when it already has
/// a query), then `return_param=` and the URL-encoded IdP entity ID.
pub open spec fn return_url_with(sp_return_url: Seq<char>, idp: Seq<char>, param: Seq<char>) -> Seq<char> {
    sp_return_url + (if seq_contains(sp_return_url, seq!['?']) { seq!['&'] } else { seq!['?'] })
        + param + seq!['='] + url_encoding(encode_utf8(idp))
}

/// Build the discovery service return URL.
///
/// The discovery service redirects back to the SP with the selected IdP
/// entity ID as a query parameter.
pub fn build_return_url(sp_return_url: &str, idp_entity_id: &str, return_param: &str) -> (r: String)
    ensures
        r@ == return_url_with(sp_return_url@, idp_entity_id@, return_param@),
{
    let mut out = to_owned_string(sp_return_url);
    proof {
        reveal_strlit("?");
        assert("?"@ =~= seq!['?']);
    }
    if str_contains(sp_return_url, "?") {
        string_push(&mut out, '&');
    } else {
        string_push(&mut out, '?');
    }
    push_str(&mut out, return_param);
    string_push(&mut out, '=');
    let encoded = url_encode(idp_entity_id);
    push_str(&mut out, encoded.as_str());
    assert(out@ =~= return_url_with(sp_return_url@, idp_entity_id@, return_param@));
    out
}

// ── Discovery Service protocol ──────────────────────────────────────────────

/// A parsed discovery service request (the SP -> DS redirect).
#[derive(Debug, Clone)]
pub struct DiscoveryServiceRequest {
    /// The requesting SP's entity ID (`entityID`, required).
    pub entity_id: String,
    /// Where to send the response (`return`). When absent, the DS uses the
    /// SP's default DiscoveryResponse endpoint from metadata.
    pub return_url: Option<String>,
    /// Query parameter name for the chosen IdP (`returnIDParam`).
    pub return_id_param: String,
    /// The discovery protocol policy (`policy`). `None` means the default
    /// single-IdP policy.
    pub policy: Option<String>,
    /// Whether the DS must not interact with the user (`isPassive`).
    pub is_passive: bool,
}

impl DiscoveryServiceRequest {
    /// Whether the requested policy is one this implementation supports
    /// (absent or the single-IdP policy).
    pub fn is_supported_policy(&self) -> (r: bool)
        ensures
            r == (self.policy is None || opt_string_view(self.policy) == Some(DISCOVERY_POLICY_SINGLE@)),
    {
        match &self.policy {
            None => true,
            Some(p) => str_eq(p.as_str(), DISCOVERY_POLICY_SINGLE),
        }
    }
}

/// The query pairs with their values URL-decoded; `None` when a value does
/// not decode.
pub open spec fn decoded_pairs(ps: Seq<(Seq<char>, Seq<char>)>) -> Option<Seq<(Seq<char>, Seq<char>)>>
    decreases ps.len(),
{
    if ps.len() == 0 {
        Some(Seq::empty())
    } else {
        match (decoded_pairs(ps.drop_last()), url_decoding(ps.last().1)) {
            (Some(d), Some(v)) => Some(d.push((ps.last().0, v))),
            _ => None,
        }
    }
}

/// The value of the last pair with this key.
pub open spec fn last_value(ps: Seq<(Seq<char>, Seq<char>)>, key: Seq<char>) -> Option<Seq<char>>
    decreases ps.len(),
{
    if ps.len() == 0 {
        None
    } else if ps.last().0 == key {
        Some(ps.last().1)
    } else {
        last_value(ps.drop_last(), key)
    }
}

/// Once a prefix fails to decode, so does the whole.
proof fn lemma_decoded_pairs_prefix(ps: Seq<(Seq<char>, Seq<char>)>, j: int)
    requires
        0 <= j <= ps.len(),
        decoded_pairs(ps.subrange(0, j)) is None,
    ensures
        decoded_pairs(ps) is None,
    decreases ps.len() - j,
{
    if j < ps.len() {
        assert(ps.subrange(0, j + 1).drop_last() =~= ps.subrange(0, j));
        lemma_decoded_pairs_prefix(ps, j + 1);
    } else {
        assert(ps.subrange(0, j) =~= ps);
    }
}

/// The decoded query pairs of a discovery request.
pub open spec fn discovery_pairs(query: Seq<char>) -> Option<Seq<(Seq<char>, Seq<char>)>> {
    decoded_pairs(query_pairs_from(query, 0))
}

/// Parse a discovery service request from the request's query string. Later
/// occurrences of a parameter override earlier ones; every value must
/// URL-decode.
pub fn parse_discovery_service_request(query: &str) -> (r: Result<DiscoveryServiceRequest, ProfileError>)
    ensures
        match r {
            Ok(req) => discovery_pairs(query@) matches Some(d) && {
                &&& last_value(d, "entityID"@) == Some(req.entity_id@)
                &&& opt_string_view(req.return_url) == last_value(d, "return"@)
                &&& req.return_id_param@ == match last_value(d, "returnIDParam"@) {
                    Some(p) => p,
                    None => DEFAULT_RETURN_ID_PARAM@,
                }
                &&& opt_string_view(req.policy) == last_value(d, "policy"@)
                &&& req.is_passive == (last_value(d, "isPassive"@) == Some("true"@))
            },
            Err(e) => {
                ||| discovery_pairs(query@) is None && e is Binding
                ||| discovery_pairs(query@) matches Some(d) && last_value(d, "entityID"@) is None
                    && e == ProfileError::DiscoveryMissingEntityId
            },
        },
{
    let pairs = parse_query_string_raw(query);
    let ghost ps = string_pairs_view(pairs@);
    let mut entity_id: Option<String> = None;
    let mut return_url: Option<String> = None;
    let mut return_id_param: Option<String> = None;
    let mut policy: Option<String> = None;
    let mut is_passive = false;
    let ghost mut d: Seq<(Seq<char>, Seq<char>)> = Seq::empty();
    let mut i: usize = 0;
    assert(ps.subrange(0, 0) =~= Seq::<(Seq<char>, Seq<char>)>::empty());
    while i < pairs.len()
        invariant
            i <= pairs.len(),
            ps == string_pairs_view(pairs@),
            ps == query_pairs_from(query@, 0),
            decoded_pairs(ps.subrange(0, i as int)) == Some(d),
            opt_string_view(entity_id) == last_value(d, "entityID"@),
            opt_string_view(return_url) == last_value(d, "return"@),
            opt_string_view(return_id_param) == last_value(d, "returnIDParam"@),
            opt_string_view(policy) == last_value(d, "policy"@),
            is_passive == (last_value(d, "isPassive"@) == Some("true"@)),
        decreases pairs.len() - i,
    {
        let key = pairs[i].0.as_str();
        assert(ps.subrange(0, i + 1).drop_last() =~= ps.subrange(0, i as int));
        assert(ps[i as int] == (key@, pairs@[i as int].1@));
        let value = match url_decode(pairs[i].1.as_str()) {
            Some(v) => v,
            None => {
                proof {
                    lemma_decoded_pairs_prefix(ps, i + 1);
                }
                return Err(ProfileError::Binding(to_owned_string("invalid URL encoding in query string")));
            },
        };
        let ghost d_old = d;
        proof {
            d = d.push((key@, value@));
            assert(d.drop_last() =~= d_old);
            reveal_strlit("entityID");
            reveal_strlit("return");
            reveal_strlit("returnIDParam");
            reveal_strlit("policy");
            reveal_strlit("isPassive");
            assert("entityID"@.len() == 8 && "return"@.len() == 6 && "returnIDParam"@.len() == 13);
            assert("policy"@.len() == 6 && "isPassive"@.len() == 9);
            assert("return"@[0] != "policy"@[0]);
            assert("return"@ != "policy"@);
        }
        if str_eq(key, "entityID") {
            entity_id = Some(value);
        } else if str_eq(key, "return") {
            return_url = Some(value);
        } else if str_eq(key, "returnIDParam") {
            return_id_param = Some(value);
        } else if str_eq(key, "policy") {
            policy = Some(value);
        } else if str_eq(key, "isPassive") {
            is_passive = str_eq(value.as_str(), "true");
        }
        proof {
            assert(d.drop_last() =~= d.subrange(0, d.len() - 1));
            assert(d.last() == (key@, value@));
        }
        i = i + 1;
    }
    assert(ps.subrange(0, i as int) =~= ps);
    let entity_id = match entity_id {
        Some(e) => e,
        None => return Err(ProfileError::DiscoveryMissingEntityId),
    };
    let return_id_param = match return_id_param {
        Some(p) => p,
        None => to_owned_string(DEFAULT_RETURN_ID_PARAM),
    };
    Ok(DiscoveryServiceRequest { entity_id, return_url, return_id_param, policy, is_passive })
}

/// A DiscoveryResponse endpoint registered in SP metadata.
#[derive(Debug, Clone, PartialEq)]
pub struct DiscoveryResponseEndpoint {
    /// The endpoint location (the allowed return URL base).
    pub location: String,
    /// The endpoint index.
    pub index: u16,
    /// Whether this is the default endpoint.
    pub is_default: bool,
}

/// The first endpoint at or after `i` marked as default.
pub open spec fn first_default_from(es: Seq<DiscoveryResponseEndpoint>, i: int) -> Option<int>
    decreases es.len() - i,
{
    if i < 0 || i >= es.len() {
        None
    } else if es[i].is_default {
        Some(i)
    } else {
        first_default_from(es, i + 1)
    }
}

/// The first endpoint, at or after `i`, with the lowest index.
pub open spec fn first_lowest_from(es: Seq<DiscoveryResponseEndpoint>, i: int) -> int
    decreases es.len() - i,
{
    if i < 0 || i + 1 >= es.len() {
        i
    } else {
        let j = first_lowest_from(es, i + 1);
        if es[i].index <= es[j].index { i } else { j }
    }
}

/// The position of the default DiscoveryResponse endpoint: the first marked
/// default, else the first with the lowest index, else none.
pub open spec fn default_endpoint_position(es: Seq<DiscoveryResponseEndpoint>) -> Option<int> {
    match first_default_from(es, 0) {
        Some(i) => Some(i),
        None => if es.len() == 0 { None } else { Some(first_lowest_from(es, 0)) },
    }
}

/// Bounds of `first_lowest_from`.
proof fn lemma_first_lowest(es: Seq<DiscoveryResponseEndpoint>, i: int)
    requires
        0 <= i < es.len(),
    ensures
        i <= first_lowest_from(es, i) < es.len(),
    decreases es.len() - i,
{
    if i + 1 < es.len() {
        lemma_first_lowest(es, i + 1);
    }
}

/// The default DiscoveryResponse endpoint: isDefault=true, else lowest index.
pub fn default_discovery_response_endpoint(endpoints: &[DiscoveryResponseEndpoint]) -> (r: Option<&DiscoveryResponseEndpoint>)
    ensures
        match r {
            Some(e) => default_endpoint_position(endpoints@) matches Some(k) && 0 <= k < endpoints@.len()
                && *e == endpoints@[k],
            None => default_endpoint_position(endpoints@) is None,
        },
{
    let mut i: usize = 0;
    while i < endpoints.len()
        invariant
            i <= endpoints.len(),
            first_default_from(endpoints@, 0) == first_default_from(endpoints@, i as int),
        decreases endpoints.len() - i,
    {
        if endpoints[i].is_default {
            return Some(&endpoints[i]);
        }
        i = i + 1;
    }
    if endpoints.len() == 0 {
        return None;
    }
    proof {
        lemma_first_lowest(endpoints@, 0);
    }
    let mut best: usize = endpoints.len() - 1;
    let mut j: usize = endpoints.len() - 1;
    while j > 0
        invariant
            j < endpoints.len(),
            best < endpoints.len(),
            best as int == first_lowest_from(endpoints@, j as int),
            first_lowest_from(endpoints@, 0) == first_lowest_from(endpoints@, 0),
        decreases j,
    {
        j = j - 1;
        proof {
            lemma_first_lowest(endpoints@, j as int);
        }
        if endpoints[j].index <= endpoints[best].index {
            best = j;
        }
    }
    Some(&endpoints[best])
}

/// A URL split at its first `?` into base and query.
pub open spec fn split_query(url: Seq<char>) -> (Seq<char>, Option<Seq<char>>) {
    match first_char(url, '?', 0) {
        Some(i) => (url.subrange(0, i), Some(url.subrange(i + 1, url.len() as int))),
        None => (url, None),
    }
}

/// Whether a return URL matches a registered location: same scheme, host,
/// port and path, and the registered query (if any) kept, possibly extended
/// with further `&`-separated parameters.
pub open spec fn return_url_matches(return_url: Seq<char>, registered: Seq<char>) -> bool {
    let (rb, rq) = split_query(return_url);
    let (gb, gq) = split_query(registered);
    rb == gb && match gq {
        None => true,
        Some(expected) => rq == Some(expected) || (rq matches Some(actual) && seq_starts_with(
            actual,
            expected + seq!['&'],
        )),
    }
}

/// Whether a return URL matches one of the registered endpoints.
pub open spec fn return_url_registered(return_url: Seq<char>, registered: Seq<DiscoveryResponseEndpoint>) -> bool {
    exists|i: int| 0 <= i < registered.len() && return_url_matches(return_url, #[trigger] registered[i].location@)
}

/// Every registered location is accepted as a return URL as it stands,
/// query included; and a URL whose scheme, host, port and path differ from
/// every registered location's is refused.
pub proof fn lemma_registered_location_is_accepted(u: Seq<char>, registered: Seq<DiscoveryResponseEndpoint>)
    ensures
        (exists|i: int| 0 <= i < registered.len() && (#[trigger] registered[i]).location@ == u) ==> return_url_registered(
            u,
            registered,
        ),
        (forall|i: int| 0 <= i < registered.len() ==> split_query(#[trigger] registered[i].location@).0 != split_query(u).0)
            ==> !return_url_registered(u, registered),
{
    if exists|i: int| 0 <= i < registered.len() && (#[trigger] registered[i]).location@ == u {
        let i = choose|i: int| 0 <= i < registered.len() && (#[trigger] registered[i]).location@ == u;
        assert(return_url_matches(u, registered[i].location@));
    }
}

/// An accepted return URL keeps the registered location's scheme, host,
/// port and path, and keeps its query, if it has one, as the start of the
/// return URL's query.
pub proof fn lemma_accepted_url_keeps_location(u: Seq<char>, location: Seq<char>)
    requires
        return_url_matches(u, location),
    ensures
        split_query(u).0 == split_query(location).0,
        split_query(location).1 matches Some(q) ==> (split_query(u).1 matches Some(a) && q.len() <= a.len()
            && a.subrange(0, q.len() as int) == q),
{
    if let Some(q) = split_query(location).1 {
        let a = split_query(u).1->0;
        if a != q {
            assert((q + seq!['&']).subrange(0, q.len() as int) =~= q);
            assert(a.subrange(0, q.len() as int) =~= (q + seq!['&']).subrange(0, q.len() as int));
        } else {
            assert(a.subrange(0, q.len() as int) =~= q);
        }
    }
}

/// Split a URL at its first `?`.
fn split_url_query(url: &[char]) -> (r: (Vec<char>, Option<Vec<char>>))
    ensures
        r.0@ == split_query(url@).0,
        match r.1 {
            Some(q) => split_query(url@).1 == Some(q@),
            None => split_query(url@).1 is None,
        },
{
    proof {
        lemma_first_char(url@, '?', 0);
    }
    match find_char_from(url, '?', 0) {
        Some(i) => (slice_chars(url, 0, i), Some(slice_chars(url, i + 1, url.len()))),
        None => (slice_chars(url, 0, url.len()), None),
    }
}

/// Whether `return_url` matches the location of one registered endpoint.
fn return_url_matches_location(ret: &[char], location: &str) -> (r: bool)
    ensures
        r == return_url_matches(ret@, location@),
{
    let (return_base, return_query) = split_url_query(ret);
    let loc = chars_of(location);
    let (registered_base, registered_query) = split_url_query(loc.as_slice());
    assert(loc@.subrange(0, loc.len() as int) =~= loc@);
    assert(ret@.subrange(0, ret.len() as int) =~= ret@);
    if !chars_eq(return_base.as_slice(), registered_base.as_slice()) {
        return false;
    }
    match registered_query {
        None => true,
        Some(expected) => {
            match return_query {
                Some(actual) => {
                    if chars_eq(actual.as_slice(), expected.as_slice()) {
                        true
                    } else {
                        let mut extended = expected.clone();
                        extended.push('&');
                        assert(extended@ =~= expected@ + seq!['&']);
                        starts_with_chars(actual.as_slice(), extended.as_slice())
                    }
                },
                None => false,
            }
        },
    }
}

/// Verify a `return` URL against the SP's registered DiscoveryResponse
/// endpoints (phishing protection): the scheme, host, port and path must match
/// a registered Location, whose query string must be preserved and may be
/// extended with additional parameters.
pub fn verify_return_url(return_url: &str, registered: &[DiscoveryResponseEndpoint]) -> (r: bool)
    ensures
        r == return_url_registered(return_url@, registered@),
{
    let ret = chars_of(return_url);
    let mut i: usize = 0;
    while i < registered.len()
        invariant
            i <= registered.len(),
            ret@ == return_url@,
            forall|k: int| 0 <= k < i ==> !return_url_matches(return_url@, #[trigger] registered@[k].location@),
        decreases registered.len() - i,
    {
        if return_url_matches_location(ret.as_slice(), registered[i].location.as_str()) {
            return true;
        }
        i = i + 1;
    }
    false
}

/// Where the DS sends the browser back: the request's `return` URL (which
/// must be registered when any endpoint is registered), else the default
/// endpoint's location; `Err(true)` for an unregistered URL, `Err(false)` when
/// there is none.
pub open spec fn discovery_return_url(
    request: DiscoveryServiceRequest,
    registered: Seq<DiscoveryResponseEndpoint>,
) -> Result<Seq<char>, bool> {
    match request.return_url {
        Some(url) => if registered.len() > 0 && !return_url_registered(url@, registered) {
            Err(true)
        } else {
            Ok(url@)
        },
        None => match default_endpoint_position(registered) {
            Some(k) => Ok(registered[k].location@),
            None => Err(false),
        },
    }
}

/// Build the DS -> SP redirect URL answering a discovery request.
///
/// - The return URL is taken from the request, falling back to the SP's
///   default DiscoveryResponse endpoint.
/// - When `registered` is non-empty, the return URL MUST match a registered
///   endpoint or the request is rejected.
/// - `selected_idp = None` (e.g. an isPassive request with no known IdP)
///   redirects back without the returnIDParam.
pub fn create_discovery_service_response(
    request: &DiscoveryServiceRequest,
    registered: &[DiscoveryResponseEndpoint],
    selected_idp: Option<&str>,
) -> (r: Result<String, ProfileError>)
    ensures
        match r {
            Ok(url) => discovery_return_url(*request, registered@) matches Ok(base) && url@ == match selected_idp {
                Some(idp) => return_url_with(base, idp@, request.return_id_param@),
                None => base,
            },
            Err(ProfileError::DiscoveryReturnUrlNotRegistered(u)) => discovery_return_url(*request, registered@)
                == Err::<Seq<char>, bool>(true) && opt_string_view(request.return_url) == Some(u@),
            Err(e) => e == ProfileError::DiscoveryNoReturnUrl && discovery_return_url(*request, registered@)
                == Err::<Seq<char>, bool>(false),
        },
{
    let return_url = match &request.return_url {
        Some(url) => {
            if registered.len() > 0 && !verify_return_url(url.as_str(), registered) {
                return Err(ProfileError::DiscoveryReturnUrlNotRegistered(to_owned_string(url.as_str())));
            }
            to_owned_string(url.as_str())
        },
        None => match default_discovery_response_endpoint(registered) {
            Some(e) => to_owned_string(e.location.as_str()),
            None => return Err(ProfileError::DiscoveryNoReturnUrl),
        },
    };
    match selected_idp {
        Some(idp) => Ok(build_return_url(return_url.as_str(), idp, request.return_id_param.as_str())),
        None => Ok(return_url),
    }
}

/// The opening of the synthetic root the Extensions fragment is parsed in;
/// it pre-declares the prefixes conventionally bound in SAML metadata.
pub const DISCOVERY_EXTENSIONS_OPEN: &'static str = "<w xmlns:idpdisc=\"urn:oasis:names:tc:SAML:profiles:SSO:idp-discovery-protocol\" xmlns:md=\"urn:oasis:names:tc:SAML:2.0:metadata\" xmlns:mdui=\"urn:oasis:names:tc:SAML:metadata:ui\" xmlns:mdrpi=\"urn:oasis:names:tc:SAML:metadata:rpi\" xmlns:mdattr=\"urn:oasis:names:tc:SAML:metadata:attribute\" xmlns:shibmd=\"urn:mace:shibboleth:metadata:1.0\" xmlns:alg=\"urn:oasis:names:tc:SAML:metadata:algsupport\" xmlns:init=\"urn:oasis:names:tc:SAML:profiles:SSO:request-init\" xmlns:saml=\"urn:oasis:names:tc:SAML:2.0:assertion\" xmlns:ds=\"http://www.w3.org/2000/09/xmldsig#\">";

/// The endpoint an element describes, when it is an
/// `idpdisc:DiscoveryResponse` with a `Location`: its location, its `index`
/// (0 when absent or not a `u16`) and whether `isDefault` is `true` or `1`.
pub open spec fn discovery_endpoint_of(e: XmlElement) -> Option<(Seq<char>, u16, bool)> {
    if namespace_is(e.namespace, IDPDISC_NS@) && e.local_name@ == "DiscoveryResponse"@ {
        match attribute_value(e.attributes@, "Location"@) {
            Some(location) => {
                let index = match attribute_value(e.attributes@, "index"@) {
                    Some(v) => match parsed_u16(v) {
                        Some(n) => n,
                        None => 0u16,
                    },
                    None => 0u16,
                };
                let is_default = match attribute_value(e.attributes@, "isDefault"@) {
                    Some(v) => v == "true"@ || v == "1"@,
                    None => false,
                };
                Some((location, index, is_default))
            },
            None => None,
        }
    } else {
        None
    }
}

/// The DiscoveryResponse endpoints in a sequence of sibling subtrees, in
/// document order.
pub open spec fn endpoints_in(cs: Seq<XmlNode>) -> Seq<(Seq<char>, u16, bool)>
    decreases cs,
{
    if cs.len() == 0 {
        Seq::empty()
    } else {
        endpoints_in(cs.drop_last()) + endpoints_in_node(cs.last())
    }
}

/// The DiscoveryResponse endpoints in one subtree, in document order.
pub open spec fn endpoints_in_node(n: XmlNode) -> Seq<(Seq<char>, u16, bool)>
    decreases n,
{
    match n {
        XmlNode::Element(e) => (match discovery_endpoint_of(e) {
            Some(t) => seq![t],
            None => Seq::empty(),
        }) + endpoints_in(e.children@),
        _ => Seq::empty(),
    }
}

/// The view of a list of endpoints.
pub open spec fn endpoints_view(v: Seq<DiscoveryResponseEndpoint>) -> Seq<(Seq<char>, u16, bool)> {
    Seq::new(v.len(), |i: int| (v[i].location@, v[i].index, v[i].is_default))
}

/// The endpoint an element describes (see [`discovery_endpoint_of`]).
fn discovery_endpoint(e: &XmlElement) -> (r: Option<DiscoveryResponseEndpoint>)
    ensures
        match r {
            Some(ep) => discovery_endpoint_of(*e) == Some((ep.location@, ep.index, ep.is_default)),
            None => discovery_endpoint_of(*e) is None,
        },
{
    if !element_is(e, IDPDISC_NS, "DiscoveryResponse") {
        return None;
    }
    let location = match get_attribute(e, "Location") {
        Some(l) => l,
        None => return None,
    };
    let index = match get_attribute(e, "index") {
        Some(v) => match parse_u16(v.as_str()) {
            Some(n) => n,
            None => 0,
        },
        None => 0,
    };
    let is_default = match get_attribute(e, "isDefault") {
        Some(v) => str_eq(v.as_str(), "true") || str_eq(v.as_str(), "1"),
        None => false,
    };
    Some(DiscoveryResponseEndpoint { location, index, is_default })
}

/// Appends the DiscoveryResponse endpoints of the subtree `n` to `out`.
pub fn collect_discovery_responses(n: &XmlNode, out: &mut Vec<DiscoveryResponseEndpoint>)
    ensures
        endpoints_view(final(out)@) == endpoints_view(old(out)@) + endpoints_in_node(*n),
    decreases n,
{
    match n {
        XmlNode::Element(e) => {
            let ghost start = endpoints_view(out@);
            match discovery_endpoint(e) {
                Some(ep) => {
                    let ghost t = (ep.location@, ep.index, ep.is_default);
                    out.push(ep);
                    assert(endpoints_view(out@) =~= start + seq![t]);
                },
                None => {
                    assert(endpoints_view(out@) =~= start + Seq::<(Seq<char>, u16, bool)>::empty());
                },
            }
            let ghost mid = endpoints_view(out@);
            let mut i: usize = 0;
            while i < e.children.len()
                invariant
                    *n == XmlNode::Element(*e),
                    i <= e.children.len(),
                    endpoints_view(out@) == mid + endpoints_in(e.children@.subrange(0, i as int)),
                decreases e.children.len() - i,
            {
                assert(e.children@.subrange(0, i + 1).drop_last() =~= e.children@.subrange(0, i as int));
                proof {
                    assert(decreases_to!(*n => (*n)->Element_0));
                    assert((*n)->Element_0 == *e);
                    assert(decreases_to!(*e => e.children));
                    assert(decreases_to!(e.children => e.children@));
                    assert(decreases_to!(e.children@ => e.children@[i as int]));
                }
                collect_discovery_responses(&e.children[i], out);
                assert(endpoints_view(out@) =~= mid + endpoints_in(e.children@.subrange(0, i + 1)));
                i = i + 1;
            }
            assert(e.children@.subrange(0, i as int) =~= e.children@);
            assert(endpoints_view(out@) =~= start + endpoints_in_node(*n));
        },
        _ => {
            assert(endpoints_view(out@) =~= endpoints_view(out@) + Seq::<(Seq<char>, u16, bool)>::empty());
        },
    }
}

/// The text parsed for an Extensions fragment: the fragment inside the
/// synthetic root.
pub open spec fn wrapped_extensions(raw: Seq<char>) -> Seq<char> {
    DISCOVERY_EXTENSIONS_OPEN@ + raw + "</w>"@
}

/// Extract `idpdisc:DiscoveryResponse` endpoints from the raw XML of an SP
/// role's `<Extensions>` element. The fragment is parsed with common
/// metadata-extension prefixes pre-declared, so extensions that rely on
/// prefixes declared on an ancestor element still parse.
pub fn parse_discovery_response_endpoints(extensions_raw_xml: &str) -> (r: Result<Vec<DiscoveryResponseEndpoint>, ProfileError>)
    ensures
        match r {
            Ok(v) => if trim(extensions_raw_xml@).len() == 0 {
                v@.len() == 0
            } else {
                parsed_document_element(wrapped_extensions(extensions_raw_xml@)) matches Some(root)
                    && endpoints_view(v@) == endpoints_in(root.children@)
            },
            Err(e) => trim(extensions_raw_xml@).len() > 0 && parsed_document_element(
                wrapped_extensions(extensions_raw_xml@),
            ) is None && e is Metadata,
        },
{
    let raw = chars_of(extensions_raw_xml);
    let trimmed = trim_chars(raw.as_slice());
    if trimmed.len() == 0 {
        return Ok(Vec::new());
    }
    let mut wrapped = to_owned_string(DISCOVERY_EXTENSIONS_OPEN);
    push_str(&mut wrapped, extensions_raw_xml);
    push_str(&mut wrapped, "</w>");
    let root = match parse_xml(wrapped.as_str()) {
        Some(root) => root,
        None => return Err(ProfileError::Metadata(to_owned_string("cannot parse Extensions XML"))),
    };
    let mut endpoints: Vec<DiscoveryResponseEndpoint> = Vec::new();
    let mut i: usize = 0;
    assert(endpoints_view(endpoints@) =~= endpoints_in(root.children@.subrange(0, 0)));
    while i < root.children.len()
        invariant
            i <= root.children.len(),
            endpoints_view(endpoints@) == endpoints_in(root.children@.subrange(0, i as int)),
        decreases root.children.len() - i,
    {
        assert(root.children@.subrange(0, i + 1).drop_last() =~= root.children@.subrange(0, i as int));
        collect_discovery_responses(&root.children[i], &mut endpoints);
        i = i + 1;
    }
    assert(root.children@.subrange(0, i as int) =~= root.children@);
    Ok(endpoints)
}

} // verus!
