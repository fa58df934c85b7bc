//! `md:KeyDescriptor` (saml-metadata-2.0-os section 2.4.1.1, errata E62, E68,
//! E69) and the extraction of the X.509 certificates it carries.

use vstd::prelude::*;
use crate::encoding::{base64_lenient_decode, base64_lenient_decoding};
use crate::text::{
    chars_eq, chars_of, find_char_from, first_char, is_ascii_whitespace, is_ascii_ws, is_whitespace,
    is_ws, find_from, first_match, last_char_before, lemma_first_char, lemma_first_match, matches_at, skip_ws_back, remove_whitespace, same_index, seq_starts_with,
    slice_chars, starts_with_chars, str_eq, string_of, strip_ws, to_owned_string, trim, trim_chars,
};
use crate::xml::{children_deep_text, node_deep_text, parse_xml, parsed_document_element, XmlElement, XmlNode};

verus! {

/// Key usage (E62): `Signing` also covers TLS; an omitted `use` means both.
#[derive(Debug, Clone, Copy, PartialEq, Eq, Hash, Structural)]
pub enum KeyUse {
    /// Key is for signing (and TLS/SSL per E62).
    Signing,
    /// Key is for encryption (key wrapping).
    Encryption,
}

/// The XML attribute value of a key use.
pub open spec fn key_use_text(u: KeyUse) -> Seq<char> {
    match u {
        KeyUse::Signing => "signing"@,
        KeyUse::Encryption => "encryption"@,
    }
}

impl KeyUse {
    /// Convert to the XML attribute value.
    pub fn as_str(&self) -> (r: &'static str)
        ensures
            r@ == key_use_text(*self),
    {
        match self {
            KeyUse::Signing => "signing",
            KeyUse::Encryption => "encryption",
        }
    }

    /// Parse the XML attribute value of a key use.
    pub fn from_attribute_value(s: &str) -> (r: Option<KeyUse>)
        ensures
            r == (if s@ == "signing"@ {
                Some(KeyUse::Signing)
            } else if s@ == "encryption"@ {
                Some(KeyUse::Encryption)
            } else {
                None
            }),
    {
        if str_eq(s, "signing") {
            Some(KeyUse::Signing)
        } else if str_eq(s, "encryption") {
            Some(KeyUse::Encryption)
        } else {
            None
        }
    }
}

impl std::str::FromStr for KeyUse {
    type Err = ();

    fn from_str(s: &str) -> (r: Result<Self, Self::Err>)
        ensures
            r == (if s@ == "signing"@ {
                Ok::<KeyUse, ()>(KeyUse::Signing)
            } else if s@ == "encryption"@ {
                Ok::<KeyUse, ()>(KeyUse::Encryption)
            } else {
                Err::<KeyUse, ()>(())
            }),
    {
        match KeyUse::from_attribute_value(s) {
            Some(u) => Ok(u),
            None => Err(()),
        }
    }
}

/// Borrowed encryption method.
#[derive(Debug, Clone, PartialEq)]
pub struct EncryptionMethodRef<'a> {
    /// Algorithm URI (required).
    pub algorithm: &'a str,
    /// Optional key size.
    pub key_size: Option<u32>,
    /// Optional OAEPparams (base64).
    pub oaep_params: Option<&'a str>,
}

/// Owned encryption method.
#[derive(Debug, Clone, PartialEq)]
pub struct EncryptionMethod {
    /// Algorithm URI (required).
    pub algorithm: String,
    /// Optional key size.
    pub key_size: Option<u32>,
    /// Optional OAEPparams (base64).
    pub oaep_params: Option<String>,
}

/// The owned copy carries the same text as the borrowed one.
pub open spec fn opt_str_copied(a: Option<&str>, b: Option<String>) -> bool {
    match (a, b) {
        (Some(x), Some(y)) => x@ == y@,
        (None, None) => true,
        _ => false,
    }
}

/// An owned copy of an optional string slice.
pub fn opt_to_owned(a: Option<&str>) -> (r: Option<String>)
    ensures
        opt_str_copied(a, r),
{
    match a {
        Some(s) => Some(to_owned_string(s)),
        None => None,
    }
}

/// An encryption method and its owned copy agree field by field.
pub open spec fn encryption_method_copied(a: EncryptionMethodRef, b: EncryptionMethod) -> bool {
    &&& a.algorithm@ == b.algorithm@
    &&& a.key_size == b.key_size
    &&& opt_str_copied(a.oaep_params, b.oaep_params)
}

impl<'a> EncryptionMethodRef<'a> {
    /// Convert to owned EncryptionMethod.
    pub fn to_owned(&self) -> (r: EncryptionMethod)
        ensures
            encryption_method_copied(*self, r),
    {
        EncryptionMethod {
            algorithm: to_owned_string(self.algorithm),
            key_size: self.key_size,
            oaep_params: opt_to_owned(self.oaep_params),
        }
    }
}

/// Borrowed key descriptor - references parsed XML.
///
/// Per E68 several descriptors with the same `use` mean any of the keys may be
/// used; per E69 the KeyInfo content carries no implied semantics.
#[derive(Debug, Clone, PartialEq)]
pub struct KeyDescriptorRef<'a> {
    /// Key use (optional; None = both signing and encryption per E62).
    pub use_: Option<KeyUse>,
    /// Raw ds:KeyInfo XML (opaque).
    pub key_info_xml: &'a str,
    /// Encryption methods (0..n).
    pub encryption_methods: Vec<EncryptionMethodRef<'a>>,
}

/// Owned key descriptor.
#[derive(Debug, Clone, PartialEq)]
pub struct KeyDescriptor {
    /// Key use (optional; None = both signing and encryption per E62).
    pub use_: Option<KeyUse>,
    /// Raw ds:KeyInfo XML (opaque).
    pub key_info_xml: String,
    /// Encryption methods (0..n).
    pub encryption_methods: Vec<EncryptionMethod>,
}

impl<'a> KeyDescriptorRef<'a> {
    /// Convert to owned KeyDescriptor.
    pub fn to_owned(&self) -> (r: KeyDescriptor)
        ensures
            r.use_ == self.use_,
            r.key_info_xml@ == self.key_info_xml@,
            r.encryption_methods.len() == self.encryption_methods.len(),
            forall|i: int| 0 <= i < r.encryption_methods.len() ==> encryption_method_copied(
                #[trigger] self.encryption_methods@[i], r.encryption_methods@[i]),
    {
        let mut methods: Vec<EncryptionMethod> = Vec::new();
        let mut i: usize = 0;
        while i < self.encryption_methods.len()
            invariant
                0 <= i <= self.encryption_methods.len(),
                methods.len() == i,
                forall|k: int| 0 <= k < i ==> encryption_method_copied(
                    #[trigger] self.encryption_methods@[k], methods@[k]),
            decreases self.encryption_methods.len() - i,
        {
            methods.push(self.encryption_methods[i].to_owned());
            i = i + 1;
        }
        KeyDescriptor {
            use_: self.use_,
            key_info_xml: to_owned_string(self.key_info_xml),
            encryption_methods: methods,
        }
    }
}

/// Whether a key of this use may sign (E62: signing, or use omitted).
pub open spec fn use_can_sign(u: Option<KeyUse>) -> bool {
    u is None || u == Some(KeyUse::Signing)
}

/// Whether a key of this use may encrypt (encryption, or use omitted).
pub open spec fn use_can_encrypt(u: Option<KeyUse>) -> bool {
    u is None || u == Some(KeyUse::Encryption)
}

impl KeyDescriptor {
    /// Create a signing key descriptor with the given KeyInfo XML.
    pub fn signing(key_info_xml: &str) -> (r: Self)
        ensures
            r.use_ == Some(KeyUse::Signing),
            r.key_info_xml@ == key_info_xml@,
            r.encryption_methods.len() == 0,
    {
        KeyDescriptor {
            use_: Some(KeyUse::Signing),
            key_info_xml: to_owned_string(key_info_xml),
            encryption_methods: Vec::new(),
        }
    }

    /// Create an encryption key descriptor with the given KeyInfo XML.
    pub fn encryption(key_info_xml: &str) -> (r: Self)
        ensures
            r.use_ == Some(KeyUse::Encryption),
            r.key_info_xml@ == key_info_xml@,
            r.encryption_methods.len() == 0,
    {
        KeyDescriptor {
            use_: Some(KeyUse::Encryption),
            key_info_xml: to_owned_string(key_info_xml),
            encryption_methods: Vec::new(),
        }
    }

    /// Create a key descriptor for both signing and encryption (use omitted).
    pub fn both(key_info_xml: &str) -> (r: Self)
        ensures
            r.use_ is None,
            r.key_info_xml@ == key_info_xml@,
            r.encryption_methods.len() == 0,
    {
        KeyDescriptor {
            use_: None,
            key_info_xml: to_owned_string(key_info_xml),
            encryption_methods: Vec::new(),
        }
    }

    /// Check if this key can be used for signing (per E62).
    pub fn can_sign(&self) -> (r: bool)
        ensures
            r == use_can_sign(self.use_),
    {
        match self.use_ {
            None => true,
            Some(KeyUse::Signing) => true,
            Some(KeyUse::Encryption) => false,
        }
    }

    /// Check if this key can be used for encryption.
    pub fn can_encrypt(&self) -> (r: bool)
        ensures
            r == use_can_encrypt(self.use_),
    {
        match self.use_ {
            None => true,
            Some(KeyUse::Encryption) => true,
            Some(KeyUse::Signing) => false,
        }
    }
}

/// The XML Signature namespace.
pub const XMLDSIG_NS: &'static str = "http://www.w3.org/2000/09/xmldsig#";

/// True for the XML Signature namespace or no namespace at all.
pub open spec fn xmldsig_or_unqualified(ns: Option<Seq<char>>) -> bool {
    ns is None || ns == Some(XMLDSIG_NS@)
}

/// The view of an optional owned string.
pub open spec fn opt_view(o: Option<String>) -> Option<Seq<char>> {
    match o {
        Some(s) => Some(s@),
        None => None,
    }
}

/// The certificates a (whitespace-stripped) base64 payload contributes: none
/// when it is empty or does not decode, else its decoding.
pub open spec fn decoded_certificate(b64: Seq<char>) -> Seq<Seq<u8>> {
    if b64.len() == 0 {
        Seq::empty()
    } else {
        match base64_lenient_decoding(b64) {
            Some(der) => seq![der],
            None => Seq::empty(),
        }
    }
}

/// Whether an element is an XMLDSig (or unqualified) element with this local name.
pub open spec fn is_dsig_element(e: XmlElement, local: Seq<char>) -> bool {
    e.local_name@ == local && xmldsig_or_unqualified(opt_view(e.namespace))
}

/// Certificates found in a parsed subtree, in document order: every
/// XMLDSig `X509Certificate` with an `X509Data` ancestor (`in_data` says
/// whether an ancestor of `n` is one).
pub open spec fn tree_certificates(n: XmlNode, in_data: bool) -> Seq<Seq<u8>>
    decreases n,
{
    match n {
        XmlNode::Element(e) => {
            let here = if in_data && is_dsig_element(e, "X509Certificate"@) {
                decoded_certificate(strip_ws(children_deep_text(e.children@)))
            } else {
                Seq::empty()
            };
            here + children_certificates(
                e.children@,
                in_data || is_dsig_element(e, "X509Data"@),
            )
        },
        _ => Seq::empty(),
    }
}

/// Certificates found in a sequence of sibling subtrees, in order.
pub open spec fn children_certificates(cs: Seq<XmlNode>, in_data: bool) -> Seq<Seq<u8>>
    decreases cs,
{
    if cs.len() == 0 {
        Seq::empty()
    } else {
        children_certificates(cs.drop_last(), in_data) + tree_certificates(cs.last(), in_data)
    }
}

/// True for the XML Signature namespace or no namespace at all.
fn is_xmldsig_or_unqualified(ns: &Option<String>) -> (r: bool)
    ensures
        r == xmldsig_or_unqualified(opt_view(*ns)),
{
    match ns {
        None => true,
        Some(n) => str_eq(n.as_str(), XMLDSIG_NS),
    }
}

/// Whether an element is an XMLDSig (or unqualified) element named `local`.
fn dsig_element_named(e: &XmlElement, local: &str) -> (r: bool)
    ensures
        r == is_dsig_element(*e, local@),
{
    str_eq(e.local_name.as_str(), local) && is_xmldsig_or_unqualified(&e.namespace)
}

/// Appends the character data of `n` and its descendants to `out`.
pub(crate) fn collect_deep_text(n: &XmlNode, out: &mut Vec<char>)
    ensures
        final(out)@ == old(out)@ + node_deep_text(*n),
    decreases n,
{
    match n {
        XmlNode::Element(e) => {
            let ghost start = out@;
            let mut i: usize = 0;
            while i < e.children.len()
                invariant
                    *n == XmlNode::Element(*e),
                    0 <= i <= e.children.len(),
                    out@ == start + children_deep_text(e.children@.subrange(0, i as int)),
                decreases e.children.len() - i,
            {
                assert(e.children@.subrange(0, i + 1).drop_last() =~= e.children@.subrange(0, i as int));
                proof {
                    assert(decreases_to!(*n => (*n)->Element_0));
                    assert((*n)->Element_0 == *e);
                    assert(decreases_to!(*e => e.children));
                    assert(decreases_to!(e.children => e.children@));
                    assert(decreases_to!(e.children@ => e.children@[i as int]));
                }
                collect_deep_text(&e.children[i], out);
                assert(out@ =~= start + children_deep_text(e.children@.subrange(0, i + 1)));
                i = i + 1;
            }
            assert(e.children@.subrange(0, i as int) =~= e.children@);
        },
        XmlNode::Text(t) => {
            let cs = chars_of(t.as_str());
            let ghost start = out@;
            let mut i: usize = 0;
            while i < cs.len()
                invariant
                    0 <= i <= cs.len(),
                    out@ == start + cs@.subrange(0, i as int),
                decreases cs.len() - i,
            {
                out.push(cs[i]);
                assert(out@ =~= start + cs@.subrange(0, i + 1));
                i = i + 1;
            }
            assert(cs@.subrange(0, i as int) =~= cs@);
        },
        XmlNode::Other => {
            assert(out@ =~= out@ + Seq::<char>::empty());
        },
    }
}

/// Decodes one whitespace-stripped base64 payload into `out`, if non-empty
/// and decodable.
fn push_decoded_certificate(b64: &[char], out: &mut Vec<Vec<u8>>)
    ensures
        final(out).deep_view() == old(out).deep_view() + decoded_certificate(b64@),
{
    if b64.len() == 0 {
        assert(out.deep_view() =~= out.deep_view() + Seq::<Seq<u8>>::empty());
        return;
    }
    let text = string_of(b64);
    match base64_lenient_decode(text.as_str()) {
        Some(der) => {
            let ghost before = out.deep_view();
            let ghost d = der@;
            assert(der.deep_view() =~= d);
            out.push(der);
            assert(out.deep_view() =~= before + seq![d]);
        },
        None => {
            assert(out.deep_view() =~= out.deep_view() + Seq::<Seq<u8>>::empty());
        },
    }
}

/// Appends the certificates of the subtree `n` to `out` (see
/// [`tree_certificates`]).
pub fn collect_tree_certificates(n: &XmlNode, in_data: bool, out: &mut Vec<Vec<u8>>)
    ensures
        final(out).deep_view() == old(out).deep_view() + tree_certificates(*n, in_data),
    decreases n,
{
    match n {
        XmlNode::Element(e) => {
            let ghost start = out.deep_view();
            if in_data && dsig_element_named(e, "X509Certificate") {
                let mut text: Vec<char> = Vec::new();
                collect_deep_text(n, &mut text);
                let b64 = remove_whitespace(text.as_slice());
                push_decoded_certificate(b64.as_slice(), out);
            } else {
                assert(out.deep_view() =~= start + Seq::<Seq<u8>>::empty());
            }
            let ghost mid = out.deep_view();
            let child_in_data = in_data || dsig_element_named(e, "X509Data");
            let mut i: usize = 0;
            while i < e.children.len()
                invariant
                    *n == XmlNode::Element(*e),
                    0 <= i <= e.children.len(),
                    out.deep_view() == mid + children_certificates(
                        e.children@.subrange(0, i as int),
                        child_in_data,
                    ),
                decreases e.children.len() - i,
            {
                assert(e.children@.subrange(0, i + 1).drop_last() =~= e.children@.subrange(0, i as int));
                proof {
                    assert(decreases_to!(*n => (*n)->Element_0));
                    assert((*n)->Element_0 == *e);
                    assert(decreases_to!(*e => e.children));
                    assert(decreases_to!(e.children => e.children@));
                    assert(decreases_to!(e.children@ => e.children@[i as int]));
                }
                collect_tree_certificates(&e.children[i], child_in_data, out);
                assert(out.deep_view() =~= mid + children_certificates(
                    e.children@.subrange(0, i + 1),
                    child_in_data,
                ));
                i = i + 1;
            }
            assert(e.children@.subrange(0, i as int) =~= e.children@);
            assert(out.deep_view() =~= start + tree_certificates(*n, in_data));
        },
        _ => {
            assert(out.deep_view() =~= out.deep_view() + Seq::<Seq<u8>>::empty());
        },
    }
}

// ── Fragment fallback ──────────────────────────────────────────────────────
//
// A `KeyInfo` captured from a larger metadata document often borrows the
// ancestors' namespace declarations and does not parse standalone. The
// fallback then scans the text, anchoring trust to the prefix of the
// `KeyInfo` root: a certificate is honoured only when (1) it uses that prefix,
// (2) it is enclosed in an `X509Data` start tag with the same prefix, and (3)
// neither tag rebinds a prefix (or the default namespace) to another URI.

/// The index of the first quote-aware `>` at or after `i`; `quote` is the
/// quote character whose value is open.
pub open spec fn tag_end_scan(x: Seq<char>, i: int, quote: Option<char>) -> Option<int>
    decreases x.len() - i,
{
    if i < 0 || i >= x.len() {
        None
    } else if x[i] == '"' || x[i] == '\'' {
        let q = match quote {
            Some(cur) => if cur == x[i] { None } else { quote },
            None => Some(x[i]),
        };
        tag_end_scan(x, i + 1, q)
    } else if x[i] == '>' && quote is None {
        Some(i)
    } else {
        tag_end_scan(x, i + 1, quote)
    }
}

/// `tag_end_scan` finds a `>` at or after its start.
pub proof fn lemma_tag_end_scan(x: Seq<char>, i: int, quote: Option<char>)
    ensures
        tag_end_scan(x, i, quote) matches Some(j) ==> i <= j < x.len() && x[j] == '>',
    decreases x.len() - i,
{
    if 0 <= i < x.len() {
        if x[i] == '"' || x[i] == '\'' {
            let q = match quote {
                Some(cur) => if cur == x[i] { None } else { quote },
                None => Some(x[i]),
            };
            lemma_tag_end_scan(x, i + 1, q);
        } else if !(x[i] == '>' && quote is None) {
            lemma_tag_end_scan(x, i + 1, quote);
        }
    }
}

/// The index of the `>` that ends the tag whose body starts at `from`,
/// skipping `>` inside quoted attribute values.
fn find_tag_end(x: &[char], from: usize) -> (r: Option<usize>)
    ensures
        same_index(r, tag_end_scan(x@, from as int, None)),
        r matches Some(j) ==> from <= j < x.len() && x@[j as int] == '>',
{
    proof {
        lemma_tag_end_scan(x@, from as int, None);
    }
    let mut quote: Option<char> = None;
    let mut index = from;
    while index < x.len()
        invariant
            from <= index,
            tag_end_scan(x@, from as int, None) == tag_end_scan(x@, index as int, quote),
        decreases x.len() - index,
    {
        let c = x[index];
        if c == '"' || c == '\'' {
            quote = match quote {
                Some(cur) => if cur == c { None } else { quote },
                None => Some(c),
            };
        } else if c == '>' && quote.is_none() {
            return Some(index);
        }
        index = index + 1;
    }
    None
}

/// The first index at or after `i` that is not ASCII whitespace.
pub open spec fn skip_ascii_ws(x: Seq<char>, i: int) -> int
    decreases x.len() - i,
{
    if i < 0 || i >= x.len() || !is_ascii_ws(x[i]) {
        i
    } else {
        skip_ascii_ws(x, i + 1)
    }
}

/// The end of an attribute name starting at `i`: the first ASCII whitespace
/// or `=` (or the end).
pub open spec fn skip_attr_name(x: Seq<char>, i: int) -> int
    decreases x.len() - i,
{
    if i < 0 || i >= x.len() || is_ascii_ws(x[i]) || x[i] == '=' {
        i
    } else {
        skip_attr_name(x, i + 1)
    }
}

/// The first index at or after `i` holding `q` (or the end).
pub open spec fn skip_until(x: Seq<char>, i: int, q: char) -> int
    decreases x.len() - i,
{
    if i < 0 || i >= x.len() || x[i] == q {
        i
    } else {
        skip_until(x, i + 1, q)
    }
}

/// The `skip_*` scans never move backwards and stop within bounds.
pub proof fn lemma_skips(x: Seq<char>, i: int, q: char)
    requires
        0 <= i <= x.len(),
    ensures
        i <= skip_ascii_ws(x, i) <= x.len(),
        i <= skip_attr_name(x, i) <= x.len(),
        i <= skip_until(x, i, q) <= x.len(),
    decreases x.len() - i,
{
    if i < x.len() {
        lemma_skips(x, i + 1, q);
    }
}

/// The `(name, value)` attribute pairs of a start-tag body from position `i`
/// on: whitespace around `=` is tolerated, both quote styles are accepted,
/// the element name (which has no `=value`) and malformed remnants are
/// skipped.
pub open spec fn attributes_from(x: Seq<char>, i: int) -> Seq<(Seq<char>, Seq<char>)>
    decreases x.len() + 1 - i,
{
    if i < 0 || i >= x.len() {
        Seq::empty()
    } else {
        let name_start = skip_ascii_ws(x, i);
        let name_end = skip_attr_name(x, name_start);
        let k = skip_ascii_ws(x, name_end);
        proof {
            lemma_skips(x, i, ' ');
            lemma_skips(x, name_start, ' ');
            lemma_skips(x, name_end, ' ');
        }
        if k < x.len() && x[k] == '=' {
            let v0 = skip_ascii_ws(x, k + 1);
            proof {
                lemma_skips(x, k + 1, ' ');
            }
            if v0 < x.len() && (x[v0] == '"' || x[v0] == '\'') {
                let ve = skip_until(x, v0 + 1, x[v0]);
                proof {
                    lemma_skips(x, v0 + 1, x[v0]);
                }
                let next = if ve < x.len() { ve + 1 } else { ve };
                let name = x.subrange(name_start, name_end);
                let here = if name.len() > 0 {
                    seq![(name, x.subrange(v0 + 1, ve))]
                } else {
                    Seq::empty()
                };
                here + attributes_from(x, next)
            } else {
                attributes_from(x, v0)
            }
        } else if k == name_start {
            attributes_from(x, k + 1)
        } else {
            attributes_from(x, k)
        }
    }
}

/// The view of a list of character-vector pairs.
pub open spec fn pairs_view(v: Seq<(Vec<char>, Vec<char>)>) -> Seq<(Seq<char>, Seq<char>)> {
    Seq::new(v.len(), |i: int| (v[i].0@, v[i].1@))
}

/// Scan a start-tag body into `(name, value)` attribute pairs.
fn tag_attributes(x: &[char]) -> (r: Vec<(Vec<char>, Vec<char>)>)
    ensures
        pairs_view(r@) == attributes_from(x@, 0),
{
    let n = x.len();
    let mut out: Vec<(Vec<char>, Vec<char>)> = Vec::new();
    let mut i: usize = 0;
    while i < n
        invariant
            n == x.len(),
            pairs_view(out@) + attributes_from(x@, i as int) == attributes_from(x@, 0),
        decreases n + 1 - i,
    {
        let ghost i0 = i as int;
        proof {
            lemma_skips(x@, i0, ' ');
        }
        while i < n && is_ascii_whitespace(x[i])
            invariant
                i0 <= i <= n == x.len(),
                skip_ascii_ws(x@, i0) == skip_ascii_ws(x@, i as int),
            decreases n - i,
        {
            i = i + 1;
        }
        let name_start = i;
        proof {
            lemma_skips(x@, name_start as int, ' ');
        }
        while i < n && !is_ascii_whitespace(x[i]) && x[i] != '='
            invariant
                name_start <= i <= n == x.len(),
                skip_attr_name(x@, name_start as int) == skip_attr_name(x@, i as int),
            decreases n - i,
        {
            i = i + 1;
        }
        let name_end = i;
        proof {
            lemma_skips(x@, name_end as int, ' ');
        }
        while i < n && is_ascii_whitespace(x[i])
            invariant
                name_end <= i <= n == x.len(),
                skip_ascii_ws(x@, name_end as int) == skip_ascii_ws(x@, i as int),
            decreases n - i,
        {
            i = i + 1;
        }
        if i < n && x[i] == '=' {
            i = i + 1;
            let k1 = i;
            proof {
                lemma_skips(x@, k1 as int, ' ');
            }
            while i < n && is_ascii_whitespace(x[i])
                invariant
                    k1 <= i <= n == x.len(),
                    skip_ascii_ws(x@, k1 as int) == skip_ascii_ws(x@, i as int),
                decreases n - i,
            {
                i = i + 1;
            }
            if i < n && (x[i] == '"' || x[i] == '\'') {
                let quote = x[i];
                i = i + 1;
                let value_start = i;
                proof {
                    lemma_skips(x@, value_start as int, quote);
                }
                while i < n && x[i] != quote
                    invariant
                        value_start <= i <= n == x.len(),
                        skip_until(x@, value_start as int, quote) == skip_until(x@, i as int, quote),
                    decreases n - i,
                {
                    i = i + 1;
                }
                let value_end = i;
                if i < n {
                    i = i + 1;
                }
                if name_end > name_start {
                    let name = slice_chars(x, name_start, name_end);
                    let value = slice_chars(x, value_start, value_end);
                    let ghost before = pairs_view(out@);
                    out.push((name, value));
                    assert(pairs_view(out@) =~= before + seq![(
                        x@.subrange(name_start as int, name_end as int),
                        x@.subrange(value_start as int, value_end as int),
                    )]);
                } else {
                    assert(x@.subrange(name_start as int, name_end as int).len() == 0);
                }
            }
        } else if i == name_start {
            if i < n {
                i = i + 1;
            } else {
                assert(attributes_from(x@, i + 1) =~= Seq::empty());
                assert(attributes_from(x@, i as int) =~= Seq::empty());
            }
        }
    }
    proof {
        assert(attributes_from(x@, i as int) =~= Seq::empty());
    }
    out
}

/// Whether one namespace declaration binds a prefix or the default namespace
/// to something other than XMLDSig (an empty URI on a prefixed declaration
/// counts; the legal default undeclaration `xmlns=""` does not).
pub open spec fn foreign_declaration(name: Seq<char>, value: Seq<char>) -> bool {
    if seq_starts_with(name, "xmlns:"@) {
        value != XMLDSIG_NS@
    } else if name == "xmlns"@ {
        value.len() > 0 && value != XMLDSIG_NS@
    } else {
        false
    }
}

/// Whether a start-tag body declares a foreign namespace binding.
pub open spec fn declares_foreign(body: Seq<char>) -> bool {
    exists|k: int| 0 <= k < attributes_from(body, 0).len() && foreign_declaration(
        #[trigger] attributes_from(body, 0)[k].0,
        attributes_from(body, 0)[k].1,
    )
}

/// True if a start-tag body declares a default or prefixed `xmlns` bound to a
/// namespace other than XMLDSig.
fn declares_foreign_namespace_chars(tag_body: &[char]) -> (r: bool)
    ensures
        r == declares_foreign(tag_body@),
{
    let attrs = tag_attributes(tag_body);
    let xmlns_colon = chars_of("xmlns:");
    let xmlns = chars_of("xmlns");
    let dsig = chars_of(XMLDSIG_NS);
    let mut k: usize = 0;
    while k < attrs.len()
        invariant
            0 <= k <= attrs.len(),
            pairs_view(attrs@) == attributes_from(tag_body@, 0),
            xmlns_colon@ == "xmlns:"@,
            xmlns@ == "xmlns"@,
            dsig@ == XMLDSIG_NS@,
            forall|j: int| 0 <= j < k ==> !foreign_declaration(
                #[trigger] attributes_from(tag_body@, 0)[j].0,
                attributes_from(tag_body@, 0)[j].1,
            ),
        decreases attrs.len() - k,
    {
        let name = &attrs[k].0;
        let value = &attrs[k].1;
        assert(attributes_from(tag_body@, 0)[k as int] == (name@, value@));
        let foreign = if starts_with_chars(name.as_slice(), xmlns_colon.as_slice()) {
            !chars_eq(value.as_slice(), dsig.as_slice())
        } else if chars_eq(name.as_slice(), xmlns.as_slice()) {
            value.len() > 0 && !chars_eq(value.as_slice(), dsig.as_slice())
        } else {
            false
        };
        if foreign {
            assert(foreign_declaration(
                attributes_from(tag_body@, 0)[k as int].0,
                attributes_from(tag_body@, 0)[k as int].1,
            ));
            return true;
        }
        k = k + 1;
    }
    false
}

/// True if a start-tag body declares a default or prefixed `xmlns` bound to a
/// namespace other than XMLDSig.
pub fn declares_foreign_namespace(tag_body: &str) -> (r: bool)
    ensures
        r == declares_foreign(tag_body@),
{
    let body = chars_of(tag_body);
    declares_foreign_namespace_chars(body.as_slice())
}

/// Whether the character after a needle match at `after` ends an element name.
pub open spec fn name_terminated(h: Seq<char>, after: int) -> bool {
    after >= h.len() || is_ws(h[after]) || h[after] == '>' || h[after] == '/'
}

/// The last non-overlapping occurrence of `needle` in `h`, scanning from
/// `p`, whose next character terminates the element name; `found` is the
/// best match so far.
pub open spec fn last_tag_scan(h: Seq<char>, needle: Seq<char>, p: int, found: Option<int>) -> Option<int>
    decreases h.len() + 1 - p,
{
    if needle.len() == 0 || p < 0 || p + needle.len() > h.len() {
        found
    } else if h.subrange(p, p + needle.len()) == needle {
        let after = p + needle.len();
        last_tag_scan(h, needle, after, if name_terminated(h, after) { Some(p) } else { found })
    } else {
        last_tag_scan(h, needle, p + 1, found)
    }
}

/// Byte index of the last occurrence of `needle` in `haystack` whose following
/// character terminates the element name.
fn last_tag(haystack: &[char], needle: &[char]) -> (r: Option<usize>)
    ensures
        same_index(r, last_tag_scan(haystack@, needle@, 0, None)),
{
    let mut p: usize = 0;
    let mut found: Option<usize> = None;
    if needle.len() == 0 {
        return None;
    }
    while p < haystack.len() && needle.len() <= haystack.len() - p
        invariant
            needle.len() > 0,
            p <= haystack.len(),
            last_tag_scan(haystack@, needle@, 0, None) == last_tag_scan(
                haystack@,
                needle@,
                p as int,
                match found {
                    Some(f) => Some(f as int),
                    None => None,
                },
            ),
        decreases haystack.len() - p,
    {
        if matches_at(haystack, needle, p) {
            let after = p + needle.len();
            let terminated = after >= haystack.len() || is_whitespace(haystack[after])
                || haystack[after] == '>' || haystack[after] == '/';
            if terminated {
                found = Some(p);
            }
            p = after;
        } else {
            p = p + 1;
        }
    }
    found
}

/// The characters up to the first whitespace, `>` or `/` at or after `i`.
pub open spec fn first_name_delim(x: Seq<char>, i: int) -> Option<int>
    decreases x.len() - i,
{
    if i < 0 || i >= x.len() {
        None
    } else if is_ws(x[i]) || x[i] == '>' || x[i] == '/' {
        Some(i)
    } else {
        first_name_delim(x, i + 1)
    }
}

/// The prefix (with its colon, or empty) of the fragment's root `KeyInfo`
/// element, or `None` when the root is missing or is not a `KeyInfo`.
pub open spec fn root_prefix(x: Seq<char>) -> Option<Seq<char>> {
    match first_char(x, '<', 0) {
        None => None,
        Some(lt) => {
            let rest = x.subrange(lt + 1, x.len() as int);
            match first_name_delim(rest, 0) {
                None => None,
                Some(end) => {
                    let qname = rest.subrange(0, end);
                    match first_char(qname, ':', 0) {
                        Some(c) => if qname.subrange(c + 1, qname.len() as int) == "KeyInfo"@ {
                            Some(qname.subrange(0, c + 1))
                        } else {
                            None
                        },
                        None => if qname == "KeyInfo"@ {
                            Some(Seq::empty())
                        } else {
                            None
                        },
                    }
                },
            }
        },
    }
}

/// The delimiter scan stays within bounds.
pub proof fn lemma_first_name_delim(x: Seq<char>, i: int)
    ensures
        first_name_delim(x, i) matches Some(j) ==> 0 <= i <= j < x.len(),
    decreases x.len() - i,
{
    if 0 <= i < x.len() && !(is_ws(x[i]) || x[i] == '>' || x[i] == '/') {
        lemma_first_name_delim(x, i + 1);
    }
}

/// The prefix of the fragment's root `<KeyInfo>` element.
fn fragment_root_prefix(x: &[char]) -> (r: Option<Vec<char>>)
    ensures
        match r {
            Some(v) => root_prefix(x@) == Some(v@),
            None => root_prefix(x@) is None,
        },
{
    proof {
        lemma_first_char(x@, '<', 0);
    }
    let lt = match find_char_from(x, '<', 0) {
        Some(lt) => lt,
        None => return None,
    };
    let rest = slice_chars(x, lt + 1, x.len());
    proof {
        lemma_first_name_delim(rest@, 0);
    }
    let mut end: usize = 0;
    while end < rest.len() && !(is_whitespace(rest[end]) || rest[end] == '>' || rest[end] == '/')
        invariant
            end <= rest.len(),
            first_name_delim(rest@, 0) == first_name_delim(rest@, end as int),
        decreases rest.len() - end,
    {
        end = end + 1;
    }
    if end >= rest.len() {
        return None;
    }
    let qname = slice_chars(rest.as_slice(), 0, end);
    let key_info = chars_of("KeyInfo");
    proof {
        lemma_first_char(qname@, ':', 0);
    }
    match find_char_from(qname.as_slice(), ':', 0) {
        Some(c) => {
            let local = slice_chars(qname.as_slice(), c + 1, qname.len());
            if chars_eq(local.as_slice(), key_info.as_slice()) {
                Some(slice_chars(qname.as_slice(), 0, c + 1))
            } else {
                None
            }
        },
        None => {
            if chars_eq(qname.as_slice(), key_info.as_slice()) {
                Some(Vec::new())
            } else {
                None
            }
        },
    }
}

/// The namespace prefix of a qualified name with its colon, or empty.
pub open spec fn prefix_of(q: Seq<char>) -> Seq<char> {
    match first_char(q, ':', 0) {
        Some(c) => q.subrange(0, c + 1),
        None => Seq::empty(),
    }
}

/// The namespace prefix of `qualified_name`, including the trailing colon.
fn qualified_prefix(q: &[char]) -> (r: Vec<char>)
    ensures
        r@ == prefix_of(q@),
{
    proof {
        lemma_first_char(q@, ':', 0);
    }
    match find_char_from(q, ':', 0) {
        Some(c) => slice_chars(q, 0, c + 1),
        None => Vec::new(),
    }
}

/// What follows the last `:` of a qualified name (the whole name if none).
pub open spec fn local_part(q: Seq<char>) -> Seq<char> {
    match last_char_before(q, ':', q.len() as int) {
        Some(c) => q.subrange(c + 1, q.len() as int),
        None => q,
    }
}

/// The first whitespace index at or after `i` (or the end).
pub open spec fn first_ws_or_end(x: Seq<char>, i: int) -> int
    decreases x.len() - i,
{
    if i < 0 || i >= x.len() || is_ws(x[i]) {
        i
    } else {
        first_ws_or_end(x, i + 1)
    }
}

/// The qualified name of a start tag whose body is `body`, when it is an
/// (opening, non-self-closing) `X509Certificate` element under any prefix.
pub open spec fn x509_start_tag_name(body: Seq<char>) -> Option<Seq<char>> {
    let t = trim(body);
    if t.len() == 0 || t[0] == '/' || t[0] == '!' || t[0] == '?' || t.last() == '/' {
        None
    } else {
        let qname = t.subrange(0, first_ws_or_end(t, 0));
        if local_part(qname) == "X509Certificate"@ {
            Some(qname)
        } else {
            None
        }
    }
}

/// Bounds of the backward and whitespace scans.
pub proof fn lemma_scans(x: Seq<char>, c: char, i: int, j: int)
    requires
        0 <= i <= x.len(),
        0 <= j <= x.len(),
    ensures
        i <= first_ws_or_end(x, i) <= x.len(),
        last_char_before(x, c, j) matches Some(k) ==> 0 <= k < j && x[k] == c,
    decreases x.len() - i + j,
{
    if i < x.len() {
        lemma_scans(x, c, i + 1, j);
    }
    if j > 0 {
        lemma_scans(x, c, i, j - 1);
    }
}

/// The qualified name of an `X509Certificate` start tag body, if it is one.
fn parse_x509_start_tag_name(tag_body: &[char]) -> (r: Option<Vec<char>>)
    ensures
        match r {
            Some(v) => x509_start_tag_name(tag_body@) == Some(v@),
            None => x509_start_tag_name(tag_body@) is None,
        },
{
    let t = trim_chars(tag_body);
    if t.len() == 0 || t[0] == '/' || t[0] == '!' || t[0] == '?' || t[t.len() - 1] == '/' {
        return None;
    }
    proof {
        lemma_scans(t@, ':', 0, 0);
    }
    let mut e: usize = 0;
    while e < t.len() && !is_whitespace(t[e])
        invariant
            e <= t.len(),
            first_ws_or_end(t@, 0) == first_ws_or_end(t@, e as int),
        decreases t.len() - e,
    {
        e = e + 1;
    }
    let qname = slice_chars(t.as_slice(), 0, e);
    proof {
        lemma_scans(qname@, ':', 0, qname.len() as int);
    }
    let mut j: usize = qname.len();
    while j > 0 && qname[j - 1] != ':'
        invariant
            j <= qname.len(),
            last_char_before(qname@, ':', qname.len() as int) == last_char_before(qname@, ':', j as int),
        decreases j,
    {
        j = j - 1;
    }
    let local = if j > 0 {
        slice_chars(qname.as_slice(), j, qname.len())
    } else {
        slice_chars(qname.as_slice(), 0, qname.len())
    };
    assert(qname@.subrange(0, qname.len() as int) =~= qname@);
    let x509 = chars_of("X509Certificate");
    if chars_eq(local.as_slice(), x509.as_slice()) {
        Some(qname)
    } else {
        None
    }
}

/// The next `X509Certificate` start tag at or after `cursor`: the index of
/// its `<`, of its closing `>`, and its qualified name. The scan gives up at
/// the first tag whose end cannot be found.
pub open spec fn next_x509_tag(x: Seq<char>, cursor: int) -> Option<(int, int, Seq<char>)>
    decreases x.len() + 1 - cursor,
{
    if cursor < 0 {
        None
    } else {
        match first_char(x, '<', cursor) {
            None => None,
            Some(ts) => {
                proof {
                    lemma_first_char(x, '<', cursor);
                    lemma_tag_end_scan(x, ts + 1, None);
                }
                match tag_end_scan(x, ts + 1, None) {
                    None => None,
                    Some(te) => match x509_start_tag_name(x.subrange(ts + 1, te)) {
                        Some(q) => Some((ts, te, q)),
                        None => next_x509_tag(x, te + 1),
                    },
                }
            },
        }
    }
}

/// Bounds of a found start tag.
pub proof fn lemma_next_x509_tag(x: Seq<char>, cursor: int)
    ensures
        next_x509_tag(x, cursor) matches Some((ts, te, q)) ==> 0 <= cursor <= ts < te < x.len()
            && x509_start_tag_name(x.subrange(ts + 1, te)) == Some(q),
    decreases x.len() + 1 - cursor,
{
    if cursor >= 0 {
        lemma_first_char(x, '<', cursor);
        if let Some(ts) = first_char(x, '<', cursor) {
            lemma_tag_end_scan(x, ts + 1, None);
            if let Some(te) = tag_end_scan(x, ts + 1, None) {
                if x509_start_tag_name(x.subrange(ts + 1, te)) is None {
                    lemma_next_x509_tag(x, te + 1);
                }
            }
        }
    }
}

/// Find the next `X509Certificate` start tag at or after `cursor`.
fn find_next_x509_start_tag(x: &[char], cursor: usize) -> (r: Option<(usize, usize, Vec<char>)>)
    ensures
        match r {
            Some((ts, te, q)) => next_x509_tag(x@, cursor as int) == Some((ts as int, te as int, q@)),
            None => next_x509_tag(x@, cursor as int) is None,
        },
{
    let mut cur = cursor;
    loop
        invariant
            next_x509_tag(x@, cursor as int) == next_x509_tag(x@, cur as int),
        decreases x.len() + 1 - cur,
    {
        proof {
            lemma_first_char(x@, '<', cur as int);
        }
        let ts = match find_char_from(x, '<', cur) {
            Some(ts) => ts,
            None => return None,
        };
        proof {
            lemma_tag_end_scan(x@, ts + 1, None);
        }
        let te = match find_tag_end(x, ts + 1) {
            Some(te) => te,
            None => return None,
        };
        let body = slice_chars(x, ts + 1, te);
        match parse_x509_start_tag_name(body.as_slice()) {
            Some(q) => return Some((ts, te, q)),
            None => {
                cur = te + 1;
            },
        }
    }
}

/// The attribute body of the `<{prefix}X509Data ...>` start tag enclosing
/// position `pos`, if that element is open there: the last such start tag
/// before `pos` is not followed by a matching close tag before `pos`, and is
/// not self-closing.
pub open spec fn enclosing_data_tag(x: Seq<char>, pos: int, prefix: Seq<char>) -> Option<Seq<char>> {
    let before = x.subrange(0, pos);
    let open_needle = seq!['<'] + prefix + "X509Data"@;
    let close_needle = seq!['<', '/'] + prefix + "X509Data"@;
    match last_tag_scan(before, open_needle, 0, None) {
        None => None,
        Some(open) => {
            let closed_after = match last_tag_scan(before, close_needle, 0, None) {
                Some(close) => close > open,
                None => false,
            };
            if closed_after {
                None
            } else {
                let after_name = open + open_needle.len();
                match tag_end_scan(x, after_name, None) {
                    None => None,
                    Some(te) => {
                        let attrs = x.subrange(after_name, te);
                        let kept = skip_ws_back(attrs, attrs.len() as int);
                        if kept > 0 && attrs[kept - 1] == '/' {
                            None
                        } else {
                            Some(attrs)
                        }
                    },
                }
            }
        },
    }
}

/// A `last_tag_scan` result is the start of a full match.
pub proof fn lemma_last_tag_scan(h: Seq<char>, needle: Seq<char>, p: int, found: Option<int>)
    requires
        found matches Some(f) ==> 0 <= f && f + needle.len() <= h.len(),
    ensures
        last_tag_scan(h, needle, p, found) matches Some(f) ==> 0 <= f && f + needle.len() <= h.len(),
    decreases h.len() + 1 - p,
{
    if !(needle.len() == 0 || p < 0 || p + needle.len() > h.len()) {
        if h.subrange(p, p + needle.len()) == needle {
            let after = p + needle.len();
            lemma_last_tag_scan(h, needle, after, if name_terminated(h, after) { Some(p) } else { found });
        } else {
            lemma_last_tag_scan(h, needle, p + 1, found);
        }
    }
}

/// If position `pos` sits inside a `<{prefix}X509Data ...>` element, the
/// start tag's attribute body.
fn enclosing_x509data_tag(x: &[char], pos: usize, prefix: &[char]) -> (r: Option<Vec<char>>)
    requires
        pos <= x.len(),
    ensures
        match r {
            Some(v) => enclosing_data_tag(x@, pos as int, prefix@) == Some(v@),
            None => enclosing_data_tag(x@, pos as int, prefix@) is None,
        },
{
    let before = slice_chars(x, 0, pos);
    let data = chars_of("X509Data");
    let mut open_needle: Vec<char> = Vec::new();
    open_needle.push('<');
    let mut close_needle: Vec<char> = Vec::new();
    close_needle.push('<');
    close_needle.push('/');
    let mut i: usize = 0;
    while i < prefix.len()
        invariant
            i <= prefix.len(),
            open_needle@ == seq!['<'] + prefix@.subrange(0, i as int),
            close_needle@ == seq!['<', '/'] + prefix@.subrange(0, i as int),
        decreases prefix.len() - i,
    {
        open_needle.push(prefix[i]);
        close_needle.push(prefix[i]);
        i = i + 1;
    }
    let mut j: usize = 0;
    while j < data.len()
        invariant
            j <= data.len(),
            data@ == "X509Data"@,
            open_needle@ == seq!['<'] + prefix@ + data@.subrange(0, j as int),
            close_needle@ == seq!['<', '/'] + prefix@ + data@.subrange(0, j as int),
        decreases data.len() - j,
    {
        open_needle.push(data[j]);
        close_needle.push(data[j]);
        j = j + 1;
    }
    assert(open_needle@ =~= seq!['<'] + prefix@ + "X509Data"@);
    assert(close_needle@ =~= seq!['<', '/'] + prefix@ + "X509Data"@);
    proof {
        lemma_last_tag_scan(before@, open_needle@, 0, None);
    }
    let open = match last_tag(before.as_slice(), open_needle.as_slice()) {
        Some(open) => open,
        None => return None,
    };
    match last_tag(before.as_slice(), close_needle.as_slice()) {
        Some(close) => {
            if close > open {
                return None;
            }
        },
        None => {},
    }
    let after_name = open + open_needle.len();
    let te = match find_tag_end(x, after_name) {
        Some(te) => te,
        None => return None,
    };
    let attrs = slice_chars(x, after_name, te);
    let mut kept = attrs.len();
    while kept > 0 && is_whitespace(attrs[kept - 1])
        invariant
            kept <= attrs.len(),
            skip_ws_back(attrs@, attrs.len() as int) == skip_ws_back(attrs@, kept as int),
        decreases kept,
    {
        kept = kept - 1;
    }
    if kept > 0 && attrs[kept - 1] == '/' {
        return None;
    }
    Some(attrs)
}

/// Certificates the fragment scan finds from `cursor` on, anchored to the
/// KeyInfo root's `prefix`.
pub open spec fn fragment_certificates(x: Seq<char>, prefix: Seq<char>, cursor: int) -> Seq<Seq<u8>>
    decreases x.len() + 1 - cursor,
{
    if cursor < 0 || cursor > x.len() {
        Seq::empty()
    } else {
        match next_x509_tag(x, cursor) {
            None => Seq::empty(),
            Some((ts, te, q)) => {
                let close_tag = seq!['<', '/'] + q + seq!['>'];
                proof {
                    lemma_next_x509_tag(x, cursor);
                    lemma_first_match(x, close_tag, te + 1);
                }
                match first_match(x, close_tag, te + 1) {
                    None => Seq::empty(),
                    Some(content_end) => {
                        let trusted = prefix_of(q) == prefix && match enclosing_data_tag(x, ts, prefix) {
                            Some(data_body) => !declares_foreign(x.subrange(ts + 1, te))
                                && !declares_foreign(data_body),
                            None => false,
                        };
                        let here = if trusted {
                            decoded_certificate(strip_ws(x.subrange(te + 1, content_end)))
                        } else {
                            Seq::empty()
                        };
                        here + fragment_certificates(x, prefix, content_end + close_tag.len())
                    },
                }
            },
        }
    }
}

/// All certificates of a KeyInfo fragment that does not parse standalone.
pub open spec fn fragment_certificates_of(x: Seq<char>) -> Seq<Seq<u8>> {
    match root_prefix(x) {
        None => Seq::empty(),
        Some(p) => fragment_certificates(x, p, 0),
    }
}

/// Fallback extractor for `KeyInfo` fragments that inherit namespace
/// declarations from absent ancestors.
fn x509_certificates_der_from_fragment(x: &[char]) -> (r: Vec<Vec<u8>>)
    ensures
        r.deep_view() == fragment_certificates_of(x@),
{
    let mut out: Vec<Vec<u8>> = Vec::new();
    let expected_prefix = match fragment_root_prefix(x) {
        Some(p) => p,
        None => {
            assert(out.deep_view() =~= Seq::<Seq<u8>>::empty());
            return out;
        },
    };
    let mut cursor: usize = 0;
    assert(out.deep_view() =~= Seq::<Seq<u8>>::empty());
    loop
        invariant
            cursor <= x.len(),
            root_prefix(x@) == Some(expected_prefix@),
            out.deep_view() + fragment_certificates(x@, expected_prefix@, cursor as int)
                == fragment_certificates(x@, expected_prefix@, 0),
        decreases x.len() + 1 - cursor,
    {
        proof {
            lemma_next_x509_tag(x@, cursor as int);
        }
        let (tag_start, start_tag_end, qualified_name) = match find_next_x509_start_tag(x, cursor) {
            Some(t) => t,
            None => {
                assert(out.deep_view() =~= out.deep_view() + Seq::<Seq<u8>>::empty());
                return out;
            },
        };
        let mut close_tag: Vec<char> = Vec::new();
        close_tag.push('<');
        close_tag.push('/');
        let mut i: usize = 0;
        while i < qualified_name.len()
            invariant
                i <= qualified_name.len(),
                close_tag@ == seq!['<', '/'] + qualified_name@.subrange(0, i as int),
            decreases qualified_name.len() - i,
        {
            close_tag.push(qualified_name[i]);
            i = i + 1;
        }
        close_tag.push('>');
        assert(close_tag@ =~= seq!['<', '/'] + qualified_name@ + seq!['>']);
        proof {
            lemma_first_match(x@, close_tag@, start_tag_end + 1);
        }
        let content_end = match find_from(x, close_tag.as_slice(), start_tag_end + 1) {
            Some(c) => c,
            None => {
                assert(out.deep_view() =~= out.deep_view() + Seq::<Seq<u8>>::empty());
                return out;
            },
        };
        let ghost before = out.deep_view();
        let cert_tag_body = slice_chars(x, tag_start + 1, start_tag_end);
        let prefix = qualified_prefix(qualified_name.as_slice());
        let mut trusted = false;
        if chars_eq(prefix.as_slice(), expected_prefix.as_slice()) {
            match enclosing_x509data_tag(x, tag_start, expected_prefix.as_slice()) {
                Some(data_tag_body) => {
                    trusted = !declares_foreign_namespace_chars(cert_tag_body.as_slice())
                        && !declares_foreign_namespace_chars(data_tag_body.as_slice());
                },
                None => {},
            }
        }
        if trusted {
            let content = slice_chars(x, start_tag_end + 1, content_end);
            let b64 = remove_whitespace(content.as_slice());
            push_decoded_certificate(b64.as_slice(), &mut out);
        } else {
            assert(out.deep_view() =~= before + Seq::<Seq<u8>>::empty());
        }
        cursor = content_end + close_tag.len();
    }
}

/// Pull every XMLDSig `X509Certificate` out of a `KeyInfo` and base64-decode
/// it: through the parsed tree when the fragment parses standalone, else
/// through the prefix-anchored fragment scan.
pub open spec fn key_info_certificates(key_info_xml: Seq<char>) -> Seq<Seq<u8>> {
    match parsed_document_element(key_info_xml) {
        Some(root) => tree_certificates(XmlNode::Element(root), false),
        None => fragment_certificates_of(key_info_xml),
    }
}

/// The certificates of a `KeyInfo` fragment (see [`key_info_certificates`]).
fn x509_certificates_der_from_key_info(key_info_xml: &str) -> (r: Vec<Vec<u8>>)
    ensures
        r.deep_view() == key_info_certificates(key_info_xml@),
{
    match parse_xml(key_info_xml) {
        Some(root) => {
            let mut out: Vec<Vec<u8>> = Vec::new();
            let node = XmlNode::Element(root);
            collect_tree_certificates(&node, false, &mut out);
            assert(out.deep_view() =~= tree_certificates(node, false));
            out
        },
        None => {
            let x = chars_of(key_info_xml);
            x509_certificates_der_from_fragment(x.as_slice())
        },
    }
}

impl KeyDescriptor {
    /// Extract the DER-encoded X.509 certificates carried in this descriptor's
    /// `<ds:KeyInfo>` (the `<ds:X509Data><ds:X509Certificate>` elements), in
    /// document order, whitespace stripped and base64 decoded.
    ///
    /// An empty result means "no trust anchor": there is no X.509 data, or the
    /// KeyInfo could not be parsed, or a certificate did not decode. Callers
    /// must fail closed on it and never skip signature checking.
    pub fn x509_certificates_der(&self) -> (r: Vec<Vec<u8>>)
        ensures
            r.deep_view() == key_info_certificates(self.key_info_xml@),
    {
        x509_certificates_der_from_key_info(self.key_info_xml.as_str())
    }
}

/// Whether a key descriptor serves the role: signing (E62: signing or use
/// omitted) or encryption (encryption or use omitted).
pub open spec fn serves(kd: KeyDescriptor, signing: bool) -> bool {
    if signing { use_can_sign(kd.use_) } else { use_can_encrypt(kd.use_) }
}

/// The certificates of every key descriptor serving the role, in document
/// order across descriptors.
pub open spec fn role_certificates(kds: Seq<KeyDescriptor>, signing: bool) -> Seq<Seq<u8>>
    decreases kds.len(),
{
    if kds.len() == 0 {
        Seq::empty()
    } else {
        role_certificates(kds.drop_last(), signing) + if serves(kds.last(), signing) {
            key_info_certificates(kds.last().key_info_xml@)
        } else {
            Seq::empty()
        }
    }
}

/// The DER certificates of the key descriptors that serve the role.
pub fn role_certificates_der(kds: &Vec<KeyDescriptor>, signing: bool) -> (r: Vec<Vec<u8>>)
    ensures
        r.deep_view() == role_certificates(kds@, signing),
{
    let mut out: Vec<Vec<u8>> = Vec::new();
    let mut i: usize = 0;
    assert(out.deep_view() =~= role_certificates(kds@.subrange(0, 0), signing));
    while i < kds.len()
        invariant
            i <= kds.len(),
            out.deep_view() == role_certificates(kds@.subrange(0, i as int), signing),
        decreases kds.len() - i,
    {
        assert(kds@.subrange(0, i + 1).drop_last() =~= kds@.subrange(0, i as int));
        let usable = if signing { kds[i].can_sign() } else { kds[i].can_encrypt() };
        if usable {
            let mut certs = kds[i].x509_certificates_der();
            let ghost before = out@;
            let ghost added = certs@;
            let ghost dv = certs.deep_view();
            out.append(&mut certs);
            assert(out@ == before + added);
            assert(out.deep_view() =~= before.map_values(|v: Vec<u8>| v.deep_view()) + dv);
        } else {
            assert(out.deep_view() =~= out.deep_view() + Seq::<Seq<u8>>::empty());
        }
        i = i + 1;
    }
    assert(kds@.subrange(0, i as int) =~= kds@);
    out
}

} // verus!
