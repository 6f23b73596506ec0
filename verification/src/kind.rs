//! Kinds, variants and specifics as matchers: patterns that match values, and the definitions
//! they are built from.
use vstd::prelude::*;
use crate::case::{CamelCase, Domain, SkewerCase};
use crate::error::MsgErr;
use crate::point::{version_text, Version, VersionModel};
use crate::text::{push_char, push_str};

verus! {

/// Something that matches values of type `X`.
pub trait IsMatch<X> {
    /// Whether this matches `other`.
    spec fn matches(&self, other: X) -> bool;

    fn is_match(&self, other: &X) -> (b: bool)
        ensures
            b == self.matches(*other),
    ;
}

/// A value whose equality is decided by its view.
pub trait SameView: View + Sized {
    fn same_view(&self, other: &Self) -> (b: bool)
        ensures
            b == (self@ == other@),
    ;
}

impl SameView for CamelCase {
    fn same_view(&self, other: &Self) -> (b: bool) {
        self.same(other)
    }
}

impl SameView for SkewerCase {
    fn same_view(&self, other: &Self) -> (b: bool) {
        self.same(other)
    }
}

impl SameView for Domain {
    fn same_view(&self, other: &Self) -> (b: bool) {
        self.same(other)
    }
}

impl SameView for Version {
    fn same_view(&self, other: &Self) -> (b: bool) {
        crate::resolve::version_eq(self, other)
    }
}

/// A value together with a sub type and a type.
#[derive(Debug, PartialEq, Eq, Hash)]
pub struct SubTypeDef<Part, SubType> {
    pub part: Part,
    pub sub: SubType,
    pub type_: SubType,
}

impl<Part, SubType> SubTypeDef<Part, SubType> {
    pub fn with_sub(self, sub: SubType) -> (r: Self)
        ensures
            r.part == self.part,
            r.type_ == self.type_,
            r.sub == sub,
    {
        Self { part: self.part, type_: self.type_, sub }
    }

    pub fn with_type(self, type_: SubType) -> (r: Self)
        ensures
            r.part == self.part,
            r.sub == self.sub,
            r.type_ == type_,
    {
        Self { part: self.part, sub: self.sub, type_ }
    }
}

impl<Part, SubType, IsMatchPart: IsMatch<Part>, IsMatchSubType: IsMatch<SubType>> IsMatch<
    SubTypeDef<Part, SubType>,
> for SubTypeDef<IsMatchPart, IsMatchSubType> {
    open spec fn matches(&self, other: SubTypeDef<Part, SubType>) -> bool {
        self.part.matches(other.part) && self.sub.matches(other.sub) && self.type_.matches(
            other.type_,
        )
    }

    fn is_match(&self, other: &SubTypeDef<Part, SubType>) -> (b: bool) {
        self.part.is_match(&other.part) && self.sub.is_match(&other.sub) && self.type_.is_match(
            &other.type_,
        )
    }
}

/// A parent and a child.
#[derive(Debug, PartialEq, Eq, Hash)]
pub struct ParentChildDef<Parent, Child> {
    pub parent: Parent,
    pub child: Child,
}

impl<Parent, Child, IsMatchParent: IsMatch<Parent>, IsMatchChild: IsMatch<Child>> IsMatch<
    ParentChildDef<Parent, Child>,
> for ParentChildDef<IsMatchParent, IsMatchChild> {
    open spec fn matches(&self, other: ParentChildDef<Parent, Child>) -> bool {
        self.parent.matches(other.parent) && self.child.matches(other.child)
    }

    fn is_match(&self, other: &ParentChildDef<Parent, Child>) -> (b: bool) {
        self.parent.is_match(&other.parent) && self.child.is_match(&other.child)
    }
}

/// A variant of a kind.
#[derive(Debug, PartialEq, Eq, Hash)]
pub enum Variant {
    Artifact,
    Db(Db),
}

/// The kinds of database.
#[derive(Debug, Clone, Copy, PartialEq, Eq, Hash, Structural)]
pub enum Db {
    Rel,
}

pub type SpecificFull = MatcherDef<Specific, Option<CamelCase>>;

pub type VariantSubTypes = MatcherDef<Variant, Option<CamelCase>>;

pub type VariantFull = ParentMatcherDef<Variant, Option<SpecificFull>, Option<CamelCase>>;

pub type KindSubTypes = MatcherDef<Kind, Option<CamelCase>>;

pub type KindFull = ParentMatcherDef<Kind, Option<VariantFull>, Option<CamelCase>>;

pub type MatcherDef<Matcher, SubTypeMatcher> = SubTypeDef<Matcher, SubTypeMatcher>;

pub type ParentMatcherDef<Matcher, Child, SubTypeMatcher> = ParentChildDef<
    SubTypeDef<Matcher, SubTypeMatcher>,
    Child,
>;

impl Variant {
    pub fn to_sub_types(self) -> (r: VariantSubTypes)
        ensures
            r.part == self,
            r.sub is None,
            r.type_ is None,
    {
        SubTypeDef { part: self, sub: None, type_: None }
    }

    pub fn with_specific(self, specific: Option<SpecificFull>) -> (r: VariantFull)
        ensures
            r.parent.part == self,
            r.parent.sub is None,
            r.parent.type_ is None,
            r.child == specific,
    {
        ParentChildDef { parent: self.to_sub_types(), child: specific }
    }
}

/// The kinds of particle.
#[derive(Debug, Clone, Copy, PartialEq, Eq, Hash, Structural)]
pub enum Kind {
    Root,
    Space,
    Auth,
    Base,
    Mechtron,
    FileSys,
    Db,
    Artifact,
    Control,
    Portal,
    Star,
    Driver,
    Global,
}

impl Kind {
    pub fn to_sub_types(self) -> (r: KindSubTypes)
        ensures
            r.part == self,
            r.sub is None,
            r.type_ is None,
    {
        SubTypeDef { part: self, sub: None, type_: None }
    }

    pub fn with_variant(self, variant: Option<VariantFull>) -> (r: KindFull)
        ensures
            r.parent.part == self,
            r.parent.sub is None,
            r.parent.type_ is None,
            r.child == variant,
    {
        ParentChildDef { parent: self.to_sub_types(), child: variant }
    }

    pub fn default() -> (r: Self)
        ensures
            r == Kind::Root,
    {
        Kind::Root
    }
}

/// Who provides a thing, who makes it, what it is, which variant and which version.
#[derive(Debug, PartialEq, Eq, Hash)]
pub struct SpecificDef<Domain, Skewer, Version> {
    pub provider: Domain,
    pub vendor: Domain,
    pub product: Skewer,
    pub variant: Skewer,
    pub version: Version,
}

pub type Specific = SpecificDef<Domain, SkewerCase, Version>;

impl SpecificDef<Domain, SkewerCase, Version> {
    pub fn new(
        provider: Domain,
        vendor: Domain,
        product: SkewerCase,
        variant: SkewerCase,
        version: Version,
    ) -> (r: Self)
        ensures
            r.provider == provider,
            r.vendor == vendor,
            r.product == product,
            r.variant == variant,
            r.version == version,
    {
        Self { provider, vendor, product, variant, version }
    }

    pub fn to_full(self) -> (r: SpecificFull)
        ensures
            r.part == self,
            r.sub is None,
            r.type_ is None,
    {
        SubTypeDef { part: self, sub: None, type_: None }
    }

    pub fn sub(self, sub: Option<CamelCase>) -> (r: SpecificFull)
        ensures
            r.part == self,
            r.sub == sub,
            r.type_ is None,
    {
        SubTypeDef { part: self, sub, type_: None }
    }

    pub fn sub_type(self, sub: Option<CamelCase>, type_: Option<CamelCase>) -> (r: SpecificFull)
        ensures
            r.part == self,
            r.sub == sub,
            r.type_ == type_,
    {
        SubTypeDef { part: self, sub, type_ }
    }

    /// The text `provider:vendor:product:variant:version`.
    pub fn to_string(&self) -> (r: String)
        ensures
            r@ == specific_text(*self),
    {
        let mut r = self.provider.to_string();
        push_char(&mut r, ':');
        let vendor = self.vendor.to_string();
        push_str(&mut r, vendor.as_str());
        push_char(&mut r, ':');
        let product = self.product.to_string();
        push_str(&mut r, product.as_str());
        push_char(&mut r, ':');
        let variant = self.variant.to_string();
        push_str(&mut r, variant.as_str());
        push_char(&mut r, ':');
        let version = self.version.to_string();
        push_str(&mut r, version.as_str());
        assert(r@ =~= specific_text(*self));
        r
    }
}

/// The text of a specific: its five parts joined by `:`.
pub open spec fn specific_text(s: Specific) -> Seq<char> {
    s.provider@ + seq![':'] + s.vendor@ + seq![':'] + s.product@ + seq![':'] + s.variant@
        + seq![':'] + version_text(s.version@)
}

/// Matches nothing, anything, or values equal to one.
#[derive(Debug, PartialEq, Eq, Hash)]
pub enum Pattern<X> {
    Nothing,
    Any,
    Matches(X),
}

impl<X: SameView> IsMatch<X> for Pattern<X> {
    open spec fn matches(&self, other: X) -> bool {
        match self {
            Pattern::Nothing => false,
            Pattern::Any => true,
            Pattern::Matches(x) => x@ == other@,
        }
    }

    fn is_match(&self, other: &X) -> (b: bool) {
        match self {
            Pattern::Nothing => false,
            Pattern::Any => true,
            Pattern::Matches(x) => x.same_view(other),
        }
    }
}

/// Matches an absent value, anything, or a present value equal to one.
#[derive(Debug, PartialEq, Eq, Hash)]
pub enum OptPattern<X> {
    Nothing,
    Any,
    Matches(X),
}

impl<X: SameView> IsMatch<Option<X>> for OptPattern<X> {
    open spec fn matches(&self, other: Option<X>) -> bool {
        match self {
            OptPattern::Nothing => other is None,
            OptPattern::Any => true,
            OptPattern::Matches(x) => other matches Some(o) && x@ == o@,
        }
    }

    fn is_match(&self, other: &Option<X>) -> (b: bool) {
        match self {
            OptPattern::Nothing => other.is_none(),
            OptPattern::Any => true,
            OptPattern::Matches(x) => match other {
                None => false,
                Some(o) => x.same_view(o),
            },
        }
    }
}

/// Whether semver's `VersionReq::parse` accepts a text.
pub uninterp spec fn semver_req_accepts(s: Seq<char>) -> bool;

/// Whether the requirement semver reads from `req` matches a version, by semver's
/// `VersionReq::matches`.
pub uninterp spec fn semver_req_matches(req: Seq<char>, v: VersionModel) -> bool;

/// Whether semver's `VersionReq::parse` accepts `s`; the answer is the name
/// `semver_req_accepts` of the text.
#[verifier::external_body]
fn parse_semver_req(s: &str) -> (b: bool)
    ensures
        b == semver_req_accepts(s@),
{
    semver::VersionReq::parse(s).is_ok()
}

/// Whether semver's `Prerelease::new` accepts a text as prerelease identifiers.
pub uninterp spec fn semver_pre_accepts(s: Seq<char>) -> bool;

/// Whether semver's `BuildMetadata::new` accepts a text as build metadata.
pub uninterp spec fn semver_build_accepts(s: Seq<char>) -> bool;

/// Whether semver's `Prerelease::new` accepts `s`; the answer is the name
/// `semver_pre_accepts` of the text.
#[verifier::external_body]
fn semver_pre_ok(s: &str) -> (b: bool)
    ensures
        b == semver_pre_accepts(s@),
{
    semver::Prerelease::new(s).is_ok()
}

/// Whether semver's `BuildMetadata::new` accepts `s`; the answer is the name
/// `semver_build_accepts` of the text.
#[verifier::external_body]
fn semver_build_ok(s: &str) -> (b: bool)
    ensures
        b == semver_build_accepts(s@),
{
    semver::BuildMetadata::new(s).is_ok()
}

/// Whether semver's `VersionReq::matches` holds of the requirement read from `req` and the
/// semver version with the numbers and identifiers of `v`; the answer is the name
/// `semver_req_matches` of the two.
#[verifier::external_body]
fn semver_matches(req: &str, v: &Version) -> (b: bool)
    requires
        semver_req_accepts(req@),
        semver_pre_accepts(v.pre@),
        semver_build_accepts(v.build@),
    ensures
        b == semver_req_matches(req@, v@),
{
    let version = semver::Version {
        major: v.major,
        minor: v.minor,
        patch: v.patch,
        pre: semver::Prerelease::new(v.pre.as_str()).unwrap(),
        build: semver::BuildMetadata::new(v.build.as_str()).unwrap(),
    };
    semver::VersionReq::parse(req).unwrap().matches(&version)
}

/// A requirement on versions, such as `^1.0.0`.
pub struct VersionReq {
    text: String,
}

impl View for VersionReq {
    type V = Seq<char>;

    closed spec fn view(&self) -> Seq<char> {
        self.text@
    }
}

impl VersionReq {
    #[verifier::type_invariant]
    spec fn well_formed(&self) -> bool {
        semver_req_accepts(self.text@)
    }

    /// Reads a requirement; semver decides which texts are requirements.
    pub fn from_str(s: &str) -> (r: Result<Self, MsgErr>)
        ensures
            r is Ok <==> semver_req_accepts(s@),
            r matches Ok(x) ==> x@ == s@,
    {
        if parse_semver_req(s) {
            Ok(VersionReq { text: s.to_string() })
        } else {
            Err(MsgErr::from_500("could not parse version requirement"))
        }
    }

    pub fn to_string(&self) -> (r: String)
        ensures
            r@ == self@,
    {
        self.text.clone()
    }
}

impl IsMatch<Version> for VersionReq {
    /// A version whose identifiers semver does not accept as such is matched by no
    /// requirement; any other is matched as semver matches it.
    open spec fn matches(&self, other: Version) -> bool {
        semver_pre_accepts(other.pre@) && semver_build_accepts(other.build@) && semver_req_matches(
            self@,
            other@,
        )
    }

    fn is_match(&self, other: &Version) -> (b: bool) {
        proof {
            use_type_invariant(self);
        }
        if !semver_pre_ok(other.pre.as_str()) || !semver_build_ok(other.build.as_str()) {
            return false;
        }
        semver_matches(self.text.as_str(), other)
    }
}

pub type DomainSelector = Pattern<Domain>;

pub type SkewerSelector = Pattern<SkewerCase>;

pub type VersionSelector = Pattern<VersionReq>;

pub type SpecificSelector = SpecificDef<DomainSelector, SkewerSelector, VersionSelector>;

pub type SpecificFullSelector = MatcherDef<SpecificSelector, OptPattern<CamelCase>>;

impl SpecificDef<DomainSelector, SkewerSelector, VersionSelector> {
    pub fn to_full(self) -> (r: SpecificFullSelector)
        ensures
            r.part == self,
            r.sub is Nothing,
            r.type_ is Nothing,
    {
        SubTypeDef { part: self, sub: OptPattern::Nothing, type_: OptPattern::Nothing }
    }
}

impl IsMatch<Specific> for SpecificDef<DomainSelector, SkewerSelector, VersionSelector> {
    open spec fn matches(&self, other: Specific) -> bool {
        self.provider.matches(other.provider) && self.vendor.matches(other.vendor)
            && self.product.matches(other.product) && self.variant.matches(other.variant)
    }

    fn is_match(&self, other: &Specific) -> (b: bool) {
        self.provider.is_match(&other.provider) && self.vendor.is_match(&other.vendor)
            && self.product.is_match(&other.product) && self.variant.is_match(&other.variant)
    }
}

} // verus!
