//! `md:EntityDescriptor` and `md:EntitiesDescriptor` (saml-metadata-2.0-os
//! sections 2.3.1 and 2.3.2), with the accessors over the metadata
//! extensions an entity publishes.
//!
//! Instants are nanoseconds since the Unix epoch.

use vstd::prelude::*;
use super::additional::{locations_copied, locations_to_owned, AdditionalMetadataLocation, AdditionalMetadataLocationRef};
use super::affiliation::{affiliation_copied, AffiliationDescriptor, AffiliationDescriptorRef};
use super::attr_authority::{attr_authority_copied, AttributeAuthorityDescriptor, AttributeAuthorityDescriptorRef};
use super::authn_authority::{authn_authority_copied, AuthnAuthorityDescriptor, AuthnAuthorityDescriptorRef};
use super::contact::{contacts_copied, contacts_to_owned, extensions_copied, extensions_to_owned, ContactPerson, ContactPersonRef};
use super::extensions::Extensions;
use super::idp::{idp_copied, IdpSsoDescriptor, IdpSsoDescriptorRef};
use super::md_extensions::{
    empty_md, md_reading, md_view, ui_view, values_named, MdExtensions, MdView, UiInfo, UiInfoView,
    ENTITY_CATEGORY_ATTR,
};
use super::organization::{organization_copied, Organization, OrganizationRef};
use super::pdp::{pdp_copied, PdpDescriptor, PdpDescriptorRef};
use super::sp::{sp_copied, SpSsoDescriptor, SpSsoDescriptorRef};
use crate::text::{opt_str_to_owned, opt_str_view, opt_string_view, str_eq, strings_view, to_owned_string};

verus! {

// ── Roles ──────────────────────────────────────────────────────────────────

/// Borrowed entity roles: either role descriptors or an affiliation.
#[derive(Debug, Clone, PartialEq)]
pub enum EntityRolesRef<'a> {
    /// Role descriptors (IDP, SP, AuthnAuthority, AttributeAuthority, PDP).
    Roles {
        /// IDP SSO descriptors (0..n).
        idp_sso: Vec<IdpSsoDescriptorRef<'a>>,
        /// SP SSO descriptors (0..n).
        sp_sso: Vec<SpSsoDescriptorRef<'a>>,
        /// AuthnAuthority descriptors (0..n).
        authn_authority: Vec<AuthnAuthorityDescriptorRef<'a>>,
        /// AttributeAuthority descriptors (0..n).
        attr_authority: Vec<AttributeAuthorityDescriptorRef<'a>>,
        /// PDP descriptors (0..n).
        pdp: Vec<PdpDescriptorRef<'a>>,
    },
    /// Affiliation descriptor.
    Affiliation(AffiliationDescriptorRef<'a>),
}

/// Owned entity roles: either role descriptors or an affiliation.
#[derive(Debug, Clone, PartialEq)]
pub enum EntityRoles {
    /// Role descriptors (IDP, SP, AuthnAuthority, AttributeAuthority, PDP).
    Roles {
        /// IDP SSO descriptors (0..n).
        idp_sso: Vec<IdpSsoDescriptor>,
        /// SP SSO descriptors (0..n).
        sp_sso: Vec<SpSsoDescriptor>,
        /// AuthnAuthority descriptors (0..n).
        authn_authority: Vec<AuthnAuthorityDescriptor>,
        /// AttributeAuthority descriptors (0..n).
        attr_authority: Vec<AttributeAuthorityDescriptor>,
        /// PDP descriptors (0..n).
        pdp: Vec<PdpDescriptor>,
    },
    /// Affiliation descriptor.
    Affiliation(AffiliationDescriptor),
}

/// The IdP SSO descriptors of some roles (none for an affiliation).
pub open spec fn roles_idp(r: EntityRoles) -> Seq<IdpSsoDescriptor> {
    match r {
        EntityRoles::Roles { idp_sso, .. } => idp_sso@,
        EntityRoles::Affiliation(_) => Seq::empty(),
    }
}

/// The SP SSO descriptors of some roles (none for an affiliation).
pub open spec fn roles_sp(r: EntityRoles) -> Seq<SpSsoDescriptor> {
    match r {
        EntityRoles::Roles { sp_sso, .. } => sp_sso@,
        EntityRoles::Affiliation(_) => Seq::empty(),
    }
}

/// Each descriptor of the first list was copied into the second, in order.
pub open spec fn idps_copied(a: Seq<IdpSsoDescriptorRef>, b: Seq<IdpSsoDescriptor>) -> bool {
    a.len() == b.len() && forall|i: int| 0 <= i < a.len() ==> idp_copied(#[trigger] a[i], b[i])
}

/// Each descriptor of the first list was copied into the second, in order.
pub open spec fn sps_copied(a: Seq<SpSsoDescriptorRef>, b: Seq<SpSsoDescriptor>) -> bool {
    a.len() == b.len() && forall|i: int| 0 <= i < a.len() ==> sp_copied(#[trigger] a[i], b[i])
}

/// Each descriptor of the first list was copied into the second, in order.
pub open spec fn authn_authorities_copied(a: Seq<AuthnAuthorityDescriptorRef>, b: Seq<AuthnAuthorityDescriptor>) -> bool {
    a.len() == b.len() && forall|i: int| 0 <= i < a.len() ==> authn_authority_copied(#[trigger] a[i], b[i])
}

/// Each descriptor of the first list was copied into the second, in order.
pub open spec fn attr_authorities_copied(
    a: Seq<AttributeAuthorityDescriptorRef>,
    b: Seq<AttributeAuthorityDescriptor>,
) -> bool {
    a.len() == b.len() && forall|i: int| 0 <= i < a.len() ==> attr_authority_copied(#[trigger] a[i], b[i])
}

/// Each descriptor of the first list was copied into the second, in order.
pub open spec fn pdps_copied(a: Seq<PdpDescriptorRef>, b: Seq<PdpDescriptor>) -> bool {
    a.len() == b.len() && forall|i: int| 0 <= i < a.len() ==> pdp_copied(#[trigger] a[i], b[i])
}

/// Borrowed and owned roles agree: the same variant, each list copied.
pub open spec fn roles_copied(a: EntityRolesRef, b: EntityRoles) -> bool {
    match (a, b) {
        (
            EntityRolesRef::Roles { idp_sso: ai, sp_sso: asp, authn_authority: aau, attr_authority: aat, pdp: ap },
            EntityRoles::Roles { idp_sso: bi, sp_sso: bsp, authn_authority: bau, attr_authority: bat, pdp: bp },
        ) => {
            &&& idps_copied(ai@, bi@)
            &&& sps_copied(asp@, bsp@)
            &&& authn_authorities_copied(aau@, bau@)
            &&& attr_authorities_copied(aat@, bat@)
            &&& pdps_copied(ap@, bp@)
        },
        (EntityRolesRef::Affiliation(x), EntityRoles::Affiliation(y)) => affiliation_copied(x, y),
        _ => false,
    }
}

fn idps_to_owned(v: &Vec<IdpSsoDescriptorRef>) -> (r: Vec<IdpSsoDescriptor>)
    ensures
        idps_copied(v@, r@),
{
    let mut out: Vec<IdpSsoDescriptor> = Vec::new();
    let mut i: usize = 0;
    while i < v.len()
        invariant
            i <= v.len(),
            out.len() == i,
            forall|k: int| 0 <= k < i ==> idp_copied(#[trigger] v@[k], out@[k]),
        decreases v.len() - i,
    {
        out.push(v[i].to_owned());
        i = i + 1;
    }
    out
}

fn sps_to_owned(v: &Vec<SpSsoDescriptorRef>) -> (r: Vec<SpSsoDescriptor>)
    ensures
        sps_copied(v@, r@),
{
    let mut out: Vec<SpSsoDescriptor> = Vec::new();
    let mut i: usize = 0;
    while i < v.len()
        invariant
            i <= v.len(),
            out.len() == i,
            forall|k: int| 0 <= k < i ==> sp_copied(#[trigger] v@[k], out@[k]),
        decreases v.len() - i,
    {
        out.push(v[i].to_owned());
        i = i + 1;
    }
    out
}

fn authn_authorities_to_owned(v: &Vec<AuthnAuthorityDescriptorRef>) -> (r: Vec<AuthnAuthorityDescriptor>)
    ensures
        authn_authorities_copied(v@, r@),
{
    let mut out: Vec<AuthnAuthorityDescriptor> = Vec::new();
    let mut i: usize = 0;
    while i < v.len()
        invariant
            i <= v.len(),
            out.len() == i,
            forall|k: int| 0 <= k < i ==> authn_authority_copied(#[trigger] v@[k], out@[k]),
        decreases v.len() - i,
    {
        out.push(v[i].to_owned());
        i = i + 1;
    }
    out
}

fn attr_authorities_to_owned(v: &Vec<AttributeAuthorityDescriptorRef>) -> (r: Vec<AttributeAuthorityDescriptor>)
    ensures
        attr_authorities_copied(v@, r@),
{
    let mut out: Vec<AttributeAuthorityDescriptor> = Vec::new();
    let mut i: usize = 0;
    while i < v.len()
        invariant
            i <= v.len(),
            out.len() == i,
            forall|k: int| 0 <= k < i ==> attr_authority_copied(#[trigger] v@[k], out@[k]),
        decreases v.len() - i,
    {
        out.push(v[i].to_owned());
        i = i + 1;
    }
    out
}

fn pdps_to_owned(v: &Vec<PdpDescriptorRef>) -> (r: Vec<PdpDescriptor>)
    ensures
        pdps_copied(v@, r@),
{
    let mut out: Vec<PdpDescriptor> = Vec::new();
    let mut i: usize = 0;
    while i < v.len()
        invariant
            i <= v.len(),
            out.len() == i,
            forall|k: int| 0 <= k < i ==> pdp_copied(#[trigger] v@[k], out@[k]),
        decreases v.len() - i,
    {
        out.push(v[i].to_owned());
        i = i + 1;
    }
    out
}

impl<'a> EntityRolesRef<'a> {
    /// Convert to owned EntityRoles.
    pub fn to_owned(&self) -> (r: EntityRoles)
        ensures
            roles_copied(*self, r),
    {
        match self {
            EntityRolesRef::Roles { idp_sso, sp_sso, authn_authority, attr_authority, pdp } => EntityRoles::Roles {
                idp_sso: idps_to_owned(idp_sso),
                sp_sso: sps_to_owned(sp_sso),
                authn_authority: authn_authorities_to_owned(authn_authority),
                attr_authority: attr_authorities_to_owned(attr_authority),
                pdp: pdps_to_owned(pdp),
            },
            EntityRolesRef::Affiliation(a) => EntityRoles::Affiliation(a.to_owned()),
        }
    }
}

impl EntityRoles {
    /// The IdP SSO descriptors; none for an affiliation.
    pub fn idp_sso_descriptors(&self) -> (r: &[IdpSsoDescriptor])
        ensures
            r@ == roles_idp(*self),
    {
        match self {
            EntityRoles::Roles { idp_sso, .. } => idp_sso.as_slice(),
            EntityRoles::Affiliation(_) => &[],
        }
    }

    /// The SP SSO descriptors; none for an affiliation.
    pub fn sp_sso_descriptors(&self) -> (r: &[SpSsoDescriptor])
        ensures
            r@ == roles_sp(*self),
    {
        match self {
            EntityRoles::Roles { sp_sso, .. } => sp_sso.as_slice(),
            EntityRoles::Affiliation(_) => &[],
        }
    }
}

// ── EntityDescriptor ───────────────────────────────────────────────────────

/// Borrowed EntityDescriptor: the root element describing one SAML entity.
#[derive(Debug, Clone, PartialEq)]
pub struct EntityDescriptorRef<'a> {
    /// Entity ID (required, max 1024 chars).
    pub entity_id: &'a str,
    /// Optional ID attribute.
    pub id: Option<&'a str>,
    /// Optional valid-until instant.
    pub valid_until: Option<i128>,
    /// Optional cache duration (ISO 8601 duration string).
    pub cache_duration: Option<&'a str>,
    /// Whether this descriptor has a signature.
    pub has_signature: bool,
    /// The raw XML of the `Extensions`, if any.
    pub extensions: Option<&'a str>,
    /// The entity's roles or affiliation.
    pub roles: EntityRolesRef<'a>,
    /// Optional organization.
    pub organization: Option<OrganizationRef<'a>>,
    /// Contact persons (0..n).
    pub contact_persons: Vec<ContactPersonRef<'a>>,
    /// Additional metadata locations (0..n).
    pub additional_metadata_locations: Vec<AdditionalMetadataLocationRef<'a>>,
}

/// Owned EntityDescriptor.
#[derive(Debug, Clone, PartialEq)]
pub struct EntityDescriptor {
    /// Entity ID (required, max 1024 chars).
    pub entity_id: String,
    /// Optional ID attribute.
    pub id: Option<String>,
    /// Optional valid-until instant.
    pub valid_until: Option<i128>,
    /// Optional cache duration (ISO 8601 duration string).
    pub cache_duration: Option<String>,
    /// Whether this descriptor has a signature.
    pub has_signature: bool,
    /// Optional extensions.
    pub extensions: Option<Extensions>,
    /// The entity's roles or affiliation.
    pub roles: EntityRoles,
    /// Optional organization.
    pub organization: Option<Organization>,
    /// Contact persons (0..n).
    pub contact_persons: Vec<ContactPerson>,
    /// Additional metadata locations (0..n).
    pub additional_metadata_locations: Vec<AdditionalMetadataLocation>,
}

/// A borrowed entity descriptor and its owned copy agree field by field.
pub open spec fn entity_copied(a: EntityDescriptorRef, b: EntityDescriptor) -> bool {
    &&& a.entity_id@ == b.entity_id@
    &&& opt_str_view(a.id) == opt_string_view(b.id)
    &&& a.valid_until == b.valid_until
    &&& opt_str_view(a.cache_duration) == opt_string_view(b.cache_duration)
    &&& a.has_signature == b.has_signature
    &&& extensions_copied(a.extensions, b.extensions)
    &&& roles_copied(a.roles, b.roles)
    &&& match (a.organization, b.organization) {
        (Some(x), Some(y)) => organization_copied(x, y),
        (None, None) => true,
        _ => false,
    }
    &&& contacts_copied(a.contact_persons@, b.contact_persons@)
    &&& locations_copied(a.additional_metadata_locations@, b.additional_metadata_locations@)
}

impl<'a> EntityDescriptorRef<'a> {
    /// Convert to owned EntityDescriptor.
    pub fn to_owned(&self) -> (r: EntityDescriptor)
        ensures
            entity_copied(*self, r),
    {
        EntityDescriptor {
            entity_id: to_owned_string(self.entity_id),
            id: opt_str_to_owned(self.id),
            valid_until: self.valid_until,
            cache_duration: opt_str_to_owned(self.cache_duration),
            has_signature: self.has_signature,
            extensions: extensions_to_owned(self.extensions),
            roles: self.roles.to_owned(),
            organization: match &self.organization {
                Some(o) => Some(o.to_owned()),
                None => None,
            },
            contact_persons: contacts_to_owned(&self.contact_persons),
            additional_metadata_locations: locations_to_owned(&self.additional_metadata_locations),
        }
    }
}

/// What the extensions read as: their parsed content, or nothing.
pub open spec fn md_of(ext: Option<Extensions>) -> MdView {
    match ext {
        Some(e) => md_reading(e.raw_xml@),
        None => empty_md(),
    }
}

/// Whether a UIInfo carries no entries at all.
pub open spec fn ui_view_is_empty(u: UiInfoView) -> bool {
    &&& u.display_names.len() == 0
    &&& u.descriptions.len() == 0
    &&& u.information_urls.len() == 0
    &&& u.privacy_statement_urls.len() == 0
    &&& u.keywords.len() == 0
    &&& u.logos.len() == 0
}

/// The UIInfo that some extensions publish, when it has any entry.
pub open spec fn nonempty_ui(ext: Option<Extensions>) -> Option<UiInfoView> {
    match md_of(ext).ui_info {
        Some(u) => if ui_view_is_empty(u) {
            None
        } else {
            Some(u)
        },
        None => None,
    }
}

/// The first non-empty UIInfo among the extensions from position `i` on.
pub open spec fn first_ui_from(exts: Seq<Option<Extensions>>, i: int) -> Option<UiInfoView>
    decreases exts.len() - i,
{
    if i < 0 || i >= exts.len() {
        None
    } else {
        match nonempty_ui(exts[i]) {
            Some(u) => Some(u),
            None => first_ui_from(exts, i + 1),
        }
    }
}

/// The extensions of IdP role descriptors, in order.
pub open spec fn idp_role_exts(s: Seq<IdpSsoDescriptor>) -> Seq<Option<Extensions>> {
    Seq::new(s.len(), |i: int| s[i].sso_base.base.extensions)
}

/// The extensions of SP role descriptors, in order.
pub open spec fn sp_role_exts(s: Seq<SpSsoDescriptor>) -> Seq<Option<Extensions>> {
    Seq::new(s.len(), |i: int| s[i].sso_base.base.extensions)
}

/// The UIInfo for a role: the first non-empty one among its descriptors,
/// else the entity-level one when non-empty.
pub open spec fn role_ui(role_exts: Seq<Option<Extensions>>, entity_ext: Option<Extensions>) -> Option<UiInfoView> {
    match first_ui_from(role_exts, 0) {
        Some(u) => Some(u),
        None => nonempty_ui(entity_ext),
    }
}

/// The view of an optional UIInfo.
pub open spec fn opt_ui_view(o: Option<UiInfo>) -> Option<UiInfoView> {
    match o {
        Some(u) => Some(ui_view(u)),
        None => None,
    }
}

/// The algorithms some extensions advertise: signing methods, then digest
/// methods.
pub open spec fn algs_of(ext: Option<Extensions>) -> Seq<Seq<char>> {
    md_of(ext).signing_methods + md_of(ext).digest_methods
}

/// The algorithms advertised by each of the extensions, in order.
pub open spec fn all_algs(exts: Seq<Option<Extensions>>) -> Seq<Seq<char>>
    decreases exts.len(),
{
    if exts.len() == 0 {
        Seq::empty()
    } else {
        all_algs(exts.drop_last()) + algs_of(exts.last())
    }
}

/// Where an entity's advertised algorithms come from, in order: the
/// entity-level extensions, the IdP SSO roles, the SP SSO roles.
pub open spec fn algorithm_sources(e: EntityDescriptor) -> Seq<Option<Extensions>> {
    seq![e.extensions] + idp_role_exts(roles_idp(e.roles)) + sp_role_exts(roles_sp(e.roles))
}

/// `d` followed by the elements of `s` not already present, each once, in
/// order of first occurrence.
pub open spec fn dedup_onto(d: Seq<Seq<char>>, s: Seq<Seq<char>>) -> Seq<Seq<char>>
    decreases s.len(),
{
    if s.len() == 0 {
        d
    } else {
        let p = dedup_onto(d, s.drop_last());
        if p.contains(s.last()) {
            p
        } else {
            p.push(s.last())
        }
    }
}

/// The elements of `s`, each once, in order of first occurrence.
pub open spec fn first_occurrences(s: Seq<Seq<char>>) -> Seq<Seq<char>> {
    dedup_onto(Seq::empty(), s)
}

/// Deduplicating a concatenation is deduplicating its parts in turn.
proof fn lemma_dedup_onto_concat(d: Seq<Seq<char>>, a: Seq<Seq<char>>, b: Seq<Seq<char>>)
    ensures
        dedup_onto(d, a + b) == dedup_onto(dedup_onto(d, a), b),
    decreases b.len(),
{
    if b.len() == 0 {
        assert(a + b =~= a);
    } else {
        assert((a + b).drop_last() =~= a + b.drop_last());
        assert((a + b).last() == b.last());
        lemma_dedup_onto_concat(d, a, b.drop_last());
    }
}

/// The advertised algorithms, each once, in order of first occurrence: no
/// algorithm occurs twice, and each one advertised occurs.
pub proof fn lemma_first_occurrences_distinct(s: Seq<Seq<char>>)
    ensures
        forall|i: int, j: int|
            0 <= i < j < first_occurrences(s).len() ==> #[trigger] first_occurrences(s)[i] != #[trigger] first_occurrences(
                s,
            )[j],
        forall|x: Seq<char>| #[trigger] first_occurrences(s).contains(x) <==> s.contains(x),
    decreases s.len(),
{
    if s.len() > 0 {
        let p = s.drop_last();
        lemma_first_occurrences_distinct(p);
        assert(first_occurrences(s) == dedup_onto(Seq::empty(), s));
        assert forall|x: Seq<char>| #[trigger] s.contains(x) <== p.contains(x) || x == s.last() by {
            if p.contains(x) {
                let k = choose|k: int| 0 <= k < p.len() && p[k] == x;
                assert(s[k] == x);
            } else if x == s.last() {
                assert(s[s.len() - 1] == x);
            }
        }
        assert forall|x: Seq<char>| s.contains(x) implies p.contains(x) || x == s.last() by {
            let k = choose|k: int| 0 <= k < s.len() && s[k] == x;
            if k < s.len() - 1 {
                assert(p[k] == x);
            }
        }
        let q = first_occurrences(p);
        if !q.contains(s.last()) {
            assert(first_occurrences(s) == q.push(s.last()));
            assert forall|x: Seq<char>| #[trigger] q.push(s.last()).contains(x) <==> q.contains(x) || x == s.last() by {
                if q.push(s.last()).contains(x) {
                    let k = choose|k: int| 0 <= k < q.len() + 1 && q.push(s.last())[k] == x;
                    if k < q.len() {
                        assert(q[k] == x);
                    }
                }
                if q.contains(x) {
                    let k = choose|k: int| 0 <= k < q.len() && q[k] == x;
                    assert(q.push(s.last())[k] == x);
                }
                if x == s.last() {
                    assert(q.push(s.last())[q.len() as int] == x);
                }
            }
            assert forall|i: int, j: int|
                0 <= i < j < q.push(s.last()).len() implies #[trigger] q.push(s.last())[i] != #[trigger] q.push(
                s.last(),
            )[j] by {
                if j == q.len() {
                    assert(q.push(s.last())[i] == q[i]);
                    assert(q.contains(q[i]));
                } else {
                    assert(q.push(s.last())[i] == q[i]);
                    assert(q.push(s.last())[j] == q[j]);
                }
            }
        }
    }
}

/// Whether `list` holds the string `s`.
fn holds_string(list: &Vec<String>, s: &str) -> (r: bool)
    ensures
        r == strings_view(list@).contains(s@),
{
    let mut i: usize = 0;
    while i < list.len()
        invariant
            i <= list.len(),
            forall|k: int| 0 <= k < i ==> strings_view(list@)[k] != s@,
        decreases list.len() - i,
    {
        if str_eq(list[i].as_str(), s) {
            assert(strings_view(list@)[i as int] == s@);
            return true;
        }
        i = i + 1;
    }
    false
}

/// What some extensions read as, parsed.
fn md_of_exec(ext: &Option<Extensions>) -> (r: MdExtensions)
    ensures
        md_view(r) == md_of(*ext),
{
    match ext {
        Some(e) => MdExtensions::from_extensions(e),
        None => MdExtensions::empty(),
    }
}

/// The UIInfo some extensions publish, when it has any entry.
fn nonempty_ui_exec(ext: &Option<Extensions>) -> (r: Option<UiInfo>)
    ensures
        opt_ui_view(r) == nonempty_ui(*ext),
{
    let md = md_of_exec(ext);
    match md.ui_info {
        Some(ui) => {
            if ui.is_empty() {
                None
            } else {
                Some(ui)
            }
        },
        None => None,
    }
}

/// Appends the algorithms the extensions advertise that `out` lacks.
fn add_algorithms(out: &mut Vec<String>, ext: &Option<Extensions>)
    ensures
        strings_view(final(out)@) == dedup_onto(strings_view(old(out)@), algs_of(*ext)),
{
    let md = md_of_exec(ext);
    let algs = md.supported_algorithms();
    let ghost a = strings_view(algs@);
    let ghost start = strings_view(out@);
    let mut j: usize = 0;
    while j < algs.len()
        invariant
            j <= algs.len(),
            a == strings_view(algs@),
            strings_view(out@) == dedup_onto(start, a.take(j as int)),
        decreases algs.len() - j,
    {
        assert(a.take(j + 1).drop_last() =~= a.take(j as int));
        assert(a.take(j + 1).last() == algs@[j as int]@);
        if !holds_string(out, algs[j].as_str()) {
            let ghost before = out@;
            out.push(to_owned_string(algs[j].as_str()));
            assert(strings_view(out@) =~= strings_view(before).push(algs@[j as int]@));
        }
        j = j + 1;
    }
    assert(a.take(j as int) =~= a);
}

impl EntityDescriptor {
    /// The IdP SSO descriptors.
    pub fn idp_sso_descriptors(&self) -> (r: &[IdpSsoDescriptor])
        ensures
            r@ == roles_idp(self.roles),
    {
        self.roles.idp_sso_descriptors()
    }

    /// The SP SSO descriptors.
    pub fn sp_sso_descriptors(&self) -> (r: &[SpSsoDescriptor])
        ensures
            r@ == roles_sp(self.roles),
    {
        self.roles.sp_sso_descriptors()
    }

    /// Whether this entity is an IdP (has at least one IDPSSODescriptor).
    pub fn is_idp(&self) -> (r: bool)
        ensures
            r == (roles_idp(self.roles).len() > 0),
    {
        self.idp_sso_descriptors().len() != 0
    }

    /// Whether this entity is an SP (has at least one SPSSODescriptor).
    pub fn is_sp(&self) -> (r: bool)
        ensures
            r == (roles_sp(self.roles).len() > 0),
    {
        self.sp_sso_descriptors().len() != 0
    }

    /// The attribute-release-relevant metadata extensions
    /// (`mdrpi:RegistrationInfo`, `mdattr:EntityAttributes`, UIInfo,
    /// algorithm support) of the entity-level `Extensions`; empty when there
    /// are none.
    pub fn md_extensions(&self) -> (r: MdExtensions)
        ensures
            md_view(r) == md_of(self.extensions),
    {
        md_of_exec(&self.extensions)
    }

    /// The entity's `mdrpi:RegistrationInfo/@registrationAuthority`, if any.
    pub fn registration_authority(&self) -> (r: Option<String>)
        ensures
            opt_string_view(r) == md_of(self.extensions).registration_authority,
    {
        self.md_extensions().registration_authority
    }

    /// The entity's published entity-category URIs.
    pub fn entity_categories(&self) -> (r: Vec<String>)
        ensures
            strings_view(r@) == values_named(md_of(self.extensions).entity_attributes, ENTITY_CATEGORY_ATTR@),
    {
        self.md_extensions().entity_categories()
    }

    /// All values of the named entity attribute from `mdattr:EntityAttributes`.
    pub fn entity_attribute_values(&self, name: &str) -> (r: Vec<String>)
        ensures
            strings_view(r@) == values_named(md_of(self.extensions).entity_attributes, name@),
    {
        self.md_extensions().entity_attribute_values(name)
    }

    /// The `mdui:UIInfo` published for the SP role: the first non-empty one
    /// among the SP SSO descriptors, else the entity-level one.
    pub fn sp_ui_info(&self) -> (r: Option<UiInfo>)
        ensures
            opt_ui_view(r) == role_ui(sp_role_exts(roles_sp(self.roles)), self.extensions),
    {
        let sps = self.roles.sp_sso_descriptors();
        let ghost exts = sp_role_exts(sps@);
        let mut i: usize = 0;
        while i < sps.len()
            invariant
                i <= sps.len(),
                exts == sp_role_exts(sps@),
                sps@ == roles_sp(self.roles),
                first_ui_from(exts, 0) == first_ui_from(exts, i as int),
            decreases sps.len() - i,
        {
            assert(exts[i as int] == sps@[i as int].sso_base.base.extensions);
            let ui = nonempty_ui_exec(&sps[i].sso_base.base.extensions);
            if ui.is_some() {
                return ui;
            }
            i = i + 1;
        }
        nonempty_ui_exec(&self.extensions)
    }

    /// The `mdui:UIInfo` published for the IdP role: the first non-empty one
    /// among the IdP SSO descriptors, else the entity-level one.
    pub fn idp_ui_info(&self) -> (r: Option<UiInfo>)
        ensures
            opt_ui_view(r) == role_ui(idp_role_exts(roles_idp(self.roles)), self.extensions),
    {
        let idps = self.roles.idp_sso_descriptors();
        let ghost exts = idp_role_exts(idps@);
        let mut i: usize = 0;
        while i < idps.len()
            invariant
                i <= idps.len(),
                exts == idp_role_exts(idps@),
                idps@ == roles_idp(self.roles),
                first_ui_from(exts, 0) == first_ui_from(exts, i as int),
            decreases idps.len() - i,
        {
            assert(exts[i as int] == idps@[i as int].sso_base.base.extensions);
            let ui = nonempty_ui_exec(&idps[i].sso_base.base.extensions);
            if ui.is_some() {
                return ui;
            }
            i = i + 1;
        }
        nonempty_ui_exec(&self.extensions)
    }

    /// The algorithm URIs (`alg:SigningMethod` / `alg:DigestMethod`)
    /// advertised by the entity-level `Extensions`, then the IdP SSO roles,
    /// then the SP SSO roles, each once, in order of first occurrence.  This
    /// is the peer's own advertisement, to be intersected with a local
    /// allowlist, not a security decision.
    pub fn supported_algorithms(&self) -> (r: Vec<String>)
        ensures
            strings_view(r@) == first_occurrences(all_algs(algorithm_sources(*self))),
    {
        let ghost srcs = algorithm_sources(*self);
        let mut out: Vec<String> = Vec::new();
        proof {
            assert(strings_view(out@) =~= Seq::<Seq<char>>::empty());
        }
        add_algorithms(&mut out, &self.extensions);
        proof {
            reveal_with_fuel(all_algs, 2);
            assert(seq![self.extensions].drop_last() =~= Seq::<Option<Extensions>>::empty());
            assert(all_algs(seq![self.extensions]) =~= algs_of(self.extensions));
            assert(Seq::<Seq<char>>::empty() + algs_of(self.extensions) =~= algs_of(self.extensions));
            lemma_dedup_onto_concat(Seq::empty(), Seq::empty(), algs_of(self.extensions));
        }
        let idps = self.roles.idp_sso_descriptors();
        let sps = self.roles.sp_sso_descriptors();
        let ghost ie = idp_role_exts(idps@);
        let ghost se = sp_role_exts(sps@);
        let mut i: usize = 0;
        while i < idps.len()
            invariant
                i <= idps.len(),
                ie == idp_role_exts(idps@),
                strings_view(out@) == first_occurrences(all_algs(seq![self.extensions] + ie.take(i as int))),
            decreases idps.len() - i,
        {
            let ghost before = seq![self.extensions] + ie.take(i as int);
            add_algorithms(&mut out, &idps[i].sso_base.base.extensions);
            proof {
                let after = seq![self.extensions] + ie.take(i + 1);
                assert(after.drop_last() =~= before);
                assert(after.last() == idps@[i as int].sso_base.base.extensions);
                lemma_dedup_onto_concat(Seq::empty(), all_algs(before), algs_of(after.last()));
            }
            i = i + 1;
        }
        assert(ie.take(i as int) =~= ie);
        let mut j: usize = 0;
        while j < sps.len()
            invariant
                j <= sps.len(),
                ie == idp_role_exts(idps@),
                se == sp_role_exts(sps@),
                strings_view(out@) == first_occurrences(all_algs(seq![self.extensions] + ie + se.take(j as int))),
            decreases sps.len() - j,
        {
            let ghost before = seq![self.extensions] + ie + se.take(j as int);
            add_algorithms(&mut out, &sps[j].sso_base.base.extensions);
            proof {
                let after = seq![self.extensions] + ie + se.take(j + 1);
                assert(after.drop_last() =~= before);
                assert(after.last() == sps@[j as int].sso_base.base.extensions);
                lemma_dedup_onto_concat(Seq::empty(), all_algs(before), algs_of(after.last()));
            }
            j = j + 1;
        }
        assert(se.take(j as int) =~= se);
        assert(seq![self.extensions] + ie + se == srcs);
        out
    }
}

// ── EntitiesDescriptor ─────────────────────────────────────────────────────

/// A borrowed child of an EntitiesDescriptor.
#[derive(Debug, PartialEq)]
pub enum MetadataChildRef<'a> {
    /// An entity descriptor.
    Entity(Box<EntityDescriptorRef<'a>>),
    /// A nested entities descriptor.
    Entities(EntitiesDescriptorRef<'a>),
}

/// An owned child of an EntitiesDescriptor.
#[derive(Debug, PartialEq)]
pub enum MetadataChild {
    /// An entity descriptor.
    Entity(Box<EntityDescriptor>),
    /// A nested entities descriptor.
    Entities(EntitiesDescriptor),
}

/// Borrowed EntitiesDescriptor: a group of entity descriptors and nested
/// groups.
#[derive(Debug, PartialEq)]
pub struct EntitiesDescriptorRef<'a> {
    /// Optional ID attribute.
    pub id: Option<&'a str>,
    /// Optional valid-until instant.
    pub valid_until: Option<i128>,
    /// Optional cache duration.
    pub cache_duration: Option<&'a str>,
    /// Optional name.
    pub name: Option<&'a str>,
    /// Whether this descriptor has a signature.
    pub has_signature: bool,
    /// The raw XML of the `Extensions`, if any.
    pub extensions: Option<&'a str>,
    /// Children (1..n).
    pub children: Vec<MetadataChildRef<'a>>,
}

/// Owned EntitiesDescriptor.
#[derive(Debug, PartialEq)]
pub struct EntitiesDescriptor {
    /// Optional ID attribute.
    pub id: Option<String>,
    /// Optional valid-until instant.
    pub valid_until: Option<i128>,
    /// Optional cache duration.
    pub cache_duration: Option<String>,
    /// Optional name.
    pub name: Option<String>,
    /// Whether this descriptor has a signature.
    pub has_signature: bool,
    /// Optional extensions.
    pub extensions: Option<Extensions>,
    /// Children (1..n).
    pub children: Vec<MetadataChild>,
}

/// A borrowed group and its owned copy agree, children copied in order.
pub open spec fn entities_copied(a: EntitiesDescriptorRef, b: EntitiesDescriptor) -> bool
    decreases a, a.children.len() + 1,
{
    &&& opt_str_view(a.id) == opt_string_view(b.id)
    &&& a.valid_until == b.valid_until
    &&& opt_str_view(a.cache_duration) == opt_string_view(b.cache_duration)
    &&& opt_str_view(a.name) == opt_string_view(b.name)
    &&& a.has_signature == b.has_signature
    &&& extensions_copied(a.extensions, b.extensions)
    &&& a.children.len() == b.children.len()
    &&& children_copied_from(a, b, 0)
}

/// The children of `a` from position `i` on were copied into `b`'s.
pub open spec fn children_copied_from(a: EntitiesDescriptorRef, b: EntitiesDescriptor, i: int) -> bool
    decreases a, a.children.len() - i,
{
    if i < 0 || i >= a.children.len() || i >= b.children.len() {
        true
    } else {
        &&& child_copied(a.children@[i], b.children@[i])
        &&& children_copied_from(a, b, i + 1)
    }
}

/// A borrowed child and its owned copy agree.
pub open spec fn child_copied(a: MetadataChildRef, b: MetadataChild) -> bool
    decreases a, 0int,
{
    match (a, b) {
        (MetadataChildRef::Entity(x), MetadataChild::Entity(y)) => entity_copied(*x, *y),
        (MetadataChildRef::Entities(x), MetadataChild::Entities(y)) => entities_copied(x, y),
        _ => false,
    }
}

impl<'a> MetadataChildRef<'a> {
    /// Convert to owned MetadataChild.
    pub fn to_owned(&self) -> (r: MetadataChild)
        ensures
            child_copied(*self, r),
        decreases *self,
    {
        match self {
            MetadataChildRef::Entity(e) => MetadataChild::Entity(Box::new((**e).to_owned())),
            MetadataChildRef::Entities(e) => MetadataChild::Entities(e.to_owned()),
        }
    }
}

impl<'a> EntitiesDescriptorRef<'a> {
    /// Convert to owned EntitiesDescriptor.
    pub fn to_owned(&self) -> (r: EntitiesDescriptor)
        ensures
            entities_copied(*self, r),
        decreases *self,
    {
        let mut children: Vec<MetadataChild> = Vec::new();
        let mut i: usize = 0;
        while i < self.children.len()
            invariant
                i <= self.children.len(),
                children.len() == i,
                forall|k: int| 0 <= k < i ==> child_copied(#[trigger] self.children@[k], children@[k]),
            decreases self.children.len() - i,
        {
            proof {
                assert(decreases_to!(*self => self.children@[i as int]));
            }
            children.push(self.children[i].to_owned());
            i = i + 1;
        }
        let r = EntitiesDescriptor {
            id: opt_str_to_owned(self.id),
            valid_until: self.valid_until,
            cache_duration: opt_str_to_owned(self.cache_duration),
            name: opt_str_to_owned(self.name),
            has_signature: self.has_signature,
            extensions: extensions_to_owned(self.extensions),
            children,
        };
        proof {
            lemma_children_copied_from(*self, r, 0);
        }
        r
    }
}

/// Children copied one by one are copied from any position on.
proof fn lemma_children_copied_from(a: EntitiesDescriptorRef, b: EntitiesDescriptor, i: int)
    requires
        0 <= i,
        a.children.len() == b.children.len(),
        forall|k: int| 0 <= k < a.children.len() ==> child_copied(#[trigger] a.children@[k], b.children@[k]),
    ensures
        children_copied_from(a, b, i),
    decreases a.children.len() - i,
{
    if i < a.children.len() {
        lemma_children_copied_from(a, b, i + 1);
    }
}

/// The entity descriptors among the first `n` children of a group, nested
/// groups flattened in place, in order.
pub open spec fn flattened_prefix(es: EntitiesDescriptor, n: int) -> Seq<EntityDescriptor>
    decreases es, n,
{
    if n <= 0 || n > es.children.len() {
        Seq::empty()
    } else {
        flattened_prefix(es, n - 1) + match es.children@[n - 1] {
            MetadataChild::Entity(e) => seq![*e],
            MetadataChild::Entities(nested) => flattened_prefix(nested, nested.children.len() as int),
        }
    }
}

/// Every entity descriptor of a group, nested groups flattened in place,
/// in order.
pub open spec fn flattened(es: EntitiesDescriptor) -> Seq<EntityDescriptor> {
    flattened_prefix(es, es.children.len() as int)
}

/// The descriptors a list of references points to.
pub open spec fn referenced(v: Seq<&EntityDescriptor>) -> Seq<EntityDescriptor> {
    Seq::new(v.len(), |i: int| *v[i])
}

impl EntitiesDescriptor {
    /// Every entity descriptor, nested groups flattened in place, in order.
    pub fn entity_descriptors(&self) -> (r: Vec<&EntityDescriptor>)
        ensures
            referenced(r@) == flattened(*self),
        decreases *self,
    {
        let mut result: Vec<&EntityDescriptor> = Vec::new();
        let mut i: usize = 0;
        while i < self.children.len()
            invariant
                i <= self.children.len(),
                referenced(result@) == flattened_prefix(*self, i as int),
            decreases self.children.len() - i,
        {
            let ghost before = result@;
            match &self.children[i] {
                MetadataChild::Entity(e) => {
                    result.push(&**e);
                    assert(referenced(result@) =~= referenced(before) + seq![*self.children@[i as int]->Entity_0]);
                },
                MetadataChild::Entities(es) => {
                    proof {
                        assert(decreases_to!(*self => self.children@[i as int]));
                    }
                    let nested = es.entity_descriptors();
                    let mut j: usize = 0;
                    while j < nested.len()
                        invariant
                            j <= nested.len(),
                            referenced(result@) == referenced(before) + referenced(nested@).take(j as int),
                        decreases nested.len() - j,
                    {
                        let ghost prev = result@;
                        result.push(nested[j]);
                        assert(referenced(result@) =~= referenced(prev).push(*nested@[j as int]));
                        assert(referenced(nested@).take(j + 1) =~= referenced(nested@).take(j as int).push(
                            *nested@[j as int],
                        ));
                        assert(referenced(result@) =~= referenced(before) + referenced(nested@).take(j + 1));
                        j = j + 1;
                    }
                    assert(referenced(nested@).take(j as int) =~= referenced(nested@));
                },
            }
            i = i + 1;
        }
        result
    }
}

} // verus!
