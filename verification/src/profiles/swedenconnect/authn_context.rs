//! Level of Assurance / authentication context handling (sections 5.3.1,
//! 5.4.4, 6.3.4).

use vstd::prelude::*;
use crate::protocol::{AuthnContextComparison, RequestedAuthnContext};
use crate::text::{str_eq, strings_clone, strings_view, strs_to_strings, strs_view, to_owned_string};
use super::constants;
use super::error::SwedenConnectError;

verus! {

/// A Level of Assurance authentication context recognised by the framework.
///
/// This is a convenience over the raw URI constants; unknown URIs can always be
/// passed through directly as strings.
#[derive(Debug, Clone, Copy, PartialEq, Eq, Structural, Hash)]
pub enum LevelOfAssurance {
    /// LoA 1.
    Loa1,
    /// LoA 2.
    Loa2,
    /// LoA 3.
    Loa3,
    /// LoA 4.
    Loa4,
    /// LoA 2, non-resident.
    Loa2NonResident,
    /// LoA 3, non-resident.
    Loa3NonResident,
    /// LoA 4, non-resident.
    Loa4NonResident,
    /// Uncertified (self-declared) LoA 3.
    UncertifiedLoa3,
    /// eIDAS low (non-notified).
    EidasLow,
    /// eIDAS substantial (non-notified).
    EidasSubstantial,
    /// eIDAS high (non-notified).
    EidasHigh,
    /// eIDAS low (notified).
    EidasNfLow,
    /// eIDAS substantial (notified).
    EidasNfSubstantial,
    /// eIDAS high (notified).
    EidasNfHigh,
}

/// The authentication context class URI of a Level of Assurance.
pub open spec fn loa_uri(l: LevelOfAssurance) -> Seq<char> {
    match l {
        LevelOfAssurance::Loa1 => constants::LOA1@,
        LevelOfAssurance::Loa2 => constants::LOA2@,
        LevelOfAssurance::Loa3 => constants::LOA3@,
        LevelOfAssurance::Loa4 => constants::LOA4@,
        LevelOfAssurance::Loa2NonResident => constants::LOA2_NONRESIDENT@,
        LevelOfAssurance::Loa3NonResident => constants::LOA3_NONRESIDENT@,
        LevelOfAssurance::Loa4NonResident => constants::LOA4_NONRESIDENT@,
        LevelOfAssurance::UncertifiedLoa3 => constants::UNCERTIFIED_LOA3@,
        LevelOfAssurance::EidasLow => constants::EIDAS_LOW@,
        LevelOfAssurance::EidasSubstantial => constants::EIDAS_SUBSTANTIAL@,
        LevelOfAssurance::EidasHigh => constants::EIDAS_HIGH@,
        LevelOfAssurance::EidasNfLow => constants::EIDAS_NF_LOW@,
        LevelOfAssurance::EidasNfSubstantial => constants::EIDAS_NF_SUBSTANTIAL@,
        LevelOfAssurance::EidasNfHigh => constants::EIDAS_NF_HIGH@,
    }
}

/// The Level of Assurance whose URI is `uri`, if any.
pub open spec fn loa_from_uri(uri: Seq<char>) -> Option<LevelOfAssurance> {
    if uri == constants::LOA1@ {
        Some(LevelOfAssurance::Loa1)
    } else     if uri == constants::LOA2@ {
        Some(LevelOfAssurance::Loa2)
    } else     if uri == constants::LOA3@ {
        Some(LevelOfAssurance::Loa3)
    } else     if uri == constants::LOA4@ {
        Some(LevelOfAssurance::Loa4)
    } else     if uri == constants::LOA2_NONRESIDENT@ {
        Some(LevelOfAssurance::Loa2NonResident)
    } else     if uri == constants::LOA3_NONRESIDENT@ {
        Some(LevelOfAssurance::Loa3NonResident)
    } else     if uri == constants::LOA4_NONRESIDENT@ {
        Some(LevelOfAssurance::Loa4NonResident)
    } else     if uri == constants::UNCERTIFIED_LOA3@ {
        Some(LevelOfAssurance::UncertifiedLoa3)
    } else     if uri == constants::EIDAS_LOW@ {
        Some(LevelOfAssurance::EidasLow)
    } else     if uri == constants::EIDAS_SUBSTANTIAL@ {
        Some(LevelOfAssurance::EidasSubstantial)
    } else     if uri == constants::EIDAS_HIGH@ {
        Some(LevelOfAssurance::EidasHigh)
    } else     if uri == constants::EIDAS_NF_LOW@ {
        Some(LevelOfAssurance::EidasNfLow)
    } else     if uri == constants::EIDAS_NF_SUBSTANTIAL@ {
        Some(LevelOfAssurance::EidasNfSubstantial)
    } else     if uri == constants::EIDAS_NF_HIGH@ {
        Some(LevelOfAssurance::EidasNfHigh)
    } else {
        None
    }
}

impl LevelOfAssurance {
    /// The authentication context class URI for this Level of Assurance.
    pub fn as_uri(self) -> (r: &'static str)
        ensures
            r@ == loa_uri(self),
    {
        match self {
            LevelOfAssurance::Loa1 => constants::LOA1,
            LevelOfAssurance::Loa2 => constants::LOA2,
            LevelOfAssurance::Loa3 => constants::LOA3,
            LevelOfAssurance::Loa4 => constants::LOA4,
            LevelOfAssurance::Loa2NonResident => constants::LOA2_NONRESIDENT,
            LevelOfAssurance::Loa3NonResident => constants::LOA3_NONRESIDENT,
            LevelOfAssurance::Loa4NonResident => constants::LOA4_NONRESIDENT,
            LevelOfAssurance::UncertifiedLoa3 => constants::UNCERTIFIED_LOA3,
            LevelOfAssurance::EidasLow => constants::EIDAS_LOW,
            LevelOfAssurance::EidasSubstantial => constants::EIDAS_SUBSTANTIAL,
            LevelOfAssurance::EidasHigh => constants::EIDAS_HIGH,
            LevelOfAssurance::EidasNfLow => constants::EIDAS_NF_LOW,
            LevelOfAssurance::EidasNfSubstantial => constants::EIDAS_NF_SUBSTANTIAL,
            LevelOfAssurance::EidasNfHigh => constants::EIDAS_NF_HIGH,
        }
    }

    /// Parse a Level of Assurance from its authentication context class URI.
    pub fn from_uri(uri: &str) -> (r: Option<Self>)
        ensures
            r == loa_from_uri(uri@),
    {
        if str_eq(uri, constants::LOA1) {
            Some(LevelOfAssurance::Loa1)
        } else         if str_eq(uri, constants::LOA2) {
            Some(LevelOfAssurance::Loa2)
        } else         if str_eq(uri, constants::LOA3) {
            Some(LevelOfAssurance::Loa3)
        } else         if str_eq(uri, constants::LOA4) {
            Some(LevelOfAssurance::Loa4)
        } else         if str_eq(uri, constants::LOA2_NONRESIDENT) {
            Some(LevelOfAssurance::Loa2NonResident)
        } else         if str_eq(uri, constants::LOA3_NONRESIDENT) {
            Some(LevelOfAssurance::Loa3NonResident)
        } else         if str_eq(uri, constants::LOA4_NONRESIDENT) {
            Some(LevelOfAssurance::Loa4NonResident)
        } else         if str_eq(uri, constants::UNCERTIFIED_LOA3) {
            Some(LevelOfAssurance::UncertifiedLoa3)
        } else         if str_eq(uri, constants::EIDAS_LOW) {
            Some(LevelOfAssurance::EidasLow)
        } else         if str_eq(uri, constants::EIDAS_SUBSTANTIAL) {
            Some(LevelOfAssurance::EidasSubstantial)
        } else         if str_eq(uri, constants::EIDAS_HIGH) {
            Some(LevelOfAssurance::EidasHigh)
        } else         if str_eq(uri, constants::EIDAS_NF_LOW) {
            Some(LevelOfAssurance::EidasNfLow)
        } else         if str_eq(uri, constants::EIDAS_NF_SUBSTANTIAL) {
            Some(LevelOfAssurance::EidasNfSubstantial)
        } else         if str_eq(uri, constants::EIDAS_NF_HIGH) {
            Some(LevelOfAssurance::EidasNfHigh)
        } else {
            None
        }
    }
}

/// Characters that tell the Level of Assurance URIs apart: the length, the
/// character after the common `.../1.0/loa` or `.../1.0/eid` prefix, and the
/// last character.
spec fn loa_uri_key(s: Seq<char>) -> (nat, char, char) {
    (s.len(), s[36], s[s.len() - 1])
}

/// Every Level of Assurance reads back from its URI: `from_uri(as_uri(l))`
/// is `l`, so no two levels share a URI.
pub proof fn lemma_loa_uri_roundtrip(l: LevelOfAssurance)
    ensures
        loa_from_uri(loa_uri(l)) == Some(l),
{
    reveal_strlit("http://id.elegnamnden.se/loa/1.0/loa1");
    reveal_strlit("http://id.elegnamnden.se/loa/1.0/loa2");
    reveal_strlit("http://id.elegnamnden.se/loa/1.0/loa3");
    reveal_strlit("http://id.elegnamnden.se/loa/1.0/loa4");
    reveal_strlit("http://id.elegnamnden.se/loa/1.0/loa2-nonresident");
    reveal_strlit("http://id.elegnamnden.se/loa/1.0/loa3-nonresident");
    reveal_strlit("http://id.elegnamnden.se/loa/1.0/loa4-nonresident");
    reveal_strlit("http://id.swedenconnect.se/loa/1.0/uncertified-loa3");
    reveal_strlit("http://id.elegnamnden.se/loa/1.0/eidas-low");
    reveal_strlit("http://id.elegnamnden.se/loa/1.0/eidas-sub");
    reveal_strlit("http://id.elegnamnden.se/loa/1.0/eidas-high");
    reveal_strlit("http://id.elegnamnden.se/loa/1.0/eidas-nf-low");
    reveal_strlit("http://id.elegnamnden.se/loa/1.0/eidas-nf-sub");
    reveal_strlit("http://id.elegnamnden.se/loa/1.0/eidas-nf-high");
    assert(loa_uri_key(loa_uri(l)) == loa_uri_key(loa_uri(l)));
}

/// Each level is named by its own URI of the framework: `as_uri` gives the
/// level's constant and `from_uri` reads that constant as the same level.
pub proof fn lemma_each_level_has_its_own_uri()
    ensures
        loa_uri(LevelOfAssurance::Loa1) == constants::LOA1@,
        loa_from_uri(constants::LOA1@) == Some(LevelOfAssurance::Loa1),
        loa_uri(LevelOfAssurance::Loa2) == constants::LOA2@,
        loa_from_uri(constants::LOA2@) == Some(LevelOfAssurance::Loa2),
        loa_uri(LevelOfAssurance::Loa3) == constants::LOA3@,
        loa_from_uri(constants::LOA3@) == Some(LevelOfAssurance::Loa3),
        loa_uri(LevelOfAssurance::Loa4) == constants::LOA4@,
        loa_from_uri(constants::LOA4@) == Some(LevelOfAssurance::Loa4),
        loa_uri(LevelOfAssurance::Loa2NonResident) == constants::LOA2_NONRESIDENT@,
        loa_from_uri(constants::LOA2_NONRESIDENT@) == Some(LevelOfAssurance::Loa2NonResident),
        loa_uri(LevelOfAssurance::Loa3NonResident) == constants::LOA3_NONRESIDENT@,
        loa_from_uri(constants::LOA3_NONRESIDENT@) == Some(LevelOfAssurance::Loa3NonResident),
        loa_uri(LevelOfAssurance::Loa4NonResident) == constants::LOA4_NONRESIDENT@,
        loa_from_uri(constants::LOA4_NONRESIDENT@) == Some(LevelOfAssurance::Loa4NonResident),
        loa_uri(LevelOfAssurance::UncertifiedLoa3) == constants::UNCERTIFIED_LOA3@,
        loa_from_uri(constants::UNCERTIFIED_LOA3@) == Some(LevelOfAssurance::UncertifiedLoa3),
        loa_uri(LevelOfAssurance::EidasLow) == constants::EIDAS_LOW@,
        loa_from_uri(constants::EIDAS_LOW@) == Some(LevelOfAssurance::EidasLow),
        loa_uri(LevelOfAssurance::EidasSubstantial) == constants::EIDAS_SUBSTANTIAL@,
        loa_from_uri(constants::EIDAS_SUBSTANTIAL@) == Some(LevelOfAssurance::EidasSubstantial),
        loa_uri(LevelOfAssurance::EidasHigh) == constants::EIDAS_HIGH@,
        loa_from_uri(constants::EIDAS_HIGH@) == Some(LevelOfAssurance::EidasHigh),
        loa_uri(LevelOfAssurance::EidasNfLow) == constants::EIDAS_NF_LOW@,
        loa_from_uri(constants::EIDAS_NF_LOW@) == Some(LevelOfAssurance::EidasNfLow),
        loa_uri(LevelOfAssurance::EidasNfSubstantial) == constants::EIDAS_NF_SUBSTANTIAL@,
        loa_from_uri(constants::EIDAS_NF_SUBSTANTIAL@) == Some(LevelOfAssurance::EidasNfSubstantial),
        loa_uri(LevelOfAssurance::EidasNfHigh) == constants::EIDAS_NF_HIGH@,
        loa_from_uri(constants::EIDAS_NF_HIGH@) == Some(LevelOfAssurance::EidasNfHigh),
{
    lemma_loa_uri_roundtrip(LevelOfAssurance::Loa1);
    lemma_loa_uri_roundtrip(LevelOfAssurance::Loa2);
    lemma_loa_uri_roundtrip(LevelOfAssurance::Loa3);
    lemma_loa_uri_roundtrip(LevelOfAssurance::Loa4);
    lemma_loa_uri_roundtrip(LevelOfAssurance::Loa2NonResident);
    lemma_loa_uri_roundtrip(LevelOfAssurance::Loa3NonResident);
    lemma_loa_uri_roundtrip(LevelOfAssurance::Loa4NonResident);
    lemma_loa_uri_roundtrip(LevelOfAssurance::UncertifiedLoa3);
    lemma_loa_uri_roundtrip(LevelOfAssurance::EidasLow);
    lemma_loa_uri_roundtrip(LevelOfAssurance::EidasSubstantial);
    lemma_loa_uri_roundtrip(LevelOfAssurance::EidasHigh);
    lemma_loa_uri_roundtrip(LevelOfAssurance::EidasNfLow);
    lemma_loa_uri_roundtrip(LevelOfAssurance::EidasNfSubstantial);
    lemma_loa_uri_roundtrip(LevelOfAssurance::EidasNfHigh);
}

/// Build a `<saml2p:RequestedAuthnContext>` with `Comparison="exact"`, as
/// mandated by section 5.3.1: the given class references, in order, and no
/// declaration references.
pub fn requested_authn_context(loas: &[&str]) -> (r: RequestedAuthnContext)
    ensures
        strings_view(r.authn_context_class_refs@) == strs_view(loas@),
        r.authn_context_decl_refs.len() == 0,
        r.comparison == AuthnContextComparison::Exact,
{
    let refs = strs_to_strings(loas);
    RequestedAuthnContext { authn_context_class_refs: refs, authn_context_decl_refs: Vec::new(), comparison: AuthnContextComparison::Exact }
}

/// Validate the authentication context class reference returned in an assertion
/// against the ones requested, per section 6.3.4.
///
/// - `received` MUST be present.
/// - If `requested` is non-empty, `received` MUST equal one of the requested
///   URIs, otherwise the assertion is rejected.
/// - If `requested` is empty, any `received` URI is accepted.
pub fn validate_authn_context(received: Option<&str>, requested: &[String]) -> (r: Result<(), SwedenConnectError>)
    ensures
        match received {
            None => r matches Err(SwedenConnectError::MissingAuthnContextClassRef),
            Some(rc) => if requested@.len() == 0 || strings_view(requested@).contains(rc@) {
                r is Ok
            } else {
                r matches Err(SwedenConnectError::LevelOfAssuranceMismatch { received: got, requested: req })
                    && got@ == rc@ && strings_view(req@) == strings_view(requested@)
            },
        },
{
    let rc = match received {
        Some(rc) => rc,
        None => return Err(SwedenConnectError::MissingAuthnContextClassRef),
    };
    if requested.len() == 0 {
        return Ok(());
    }
    let mut i: usize = 0;
    while i < requested.len()
        invariant
            i <= requested.len(),
            received == Some(rc),
            forall|k: int| 0 <= k < i ==> requested@[k]@ != rc@,
        decreases requested.len() - i,
    {
        if str_eq(requested[i].as_str(), rc) {
            assert(strings_view(requested@)[i as int] == rc@);
            assert(strings_view(requested@).contains(rc@));
            return Ok(());
        }
        i = i + 1;
    }
    assert forall|k: int| 0 <= k < strings_view(requested@).len() implies strings_view(requested@)[k] != rc@ by {
        assert(strings_view(requested@)[k] == requested@[k]@);
    }
    Err(SwedenConnectError::LevelOfAssuranceMismatch { received: to_owned_string(rc), requested: strings_clone(requested) })
}

} // verus!
