//! The kinds of particle: a base kind, an optional sub kind and an optional specific, and how
//! a kind is made from its parts.
use vstd::prelude::*;
use convert_case::{Case, Casing};
use crate::case::{skewer_ok, CamelCase, SkewerCase};
use crate::error::MsgErr;
use crate::env::Env;
use crate::kind::{specific_text, Specific};
use crate::layer::{Layer, TraversalPlan};
use crate::point::{point_string, Point, PointCtx, PointVar};
use crate::resolve::{ctx_resolved, resolve_point_ctx, resolve_point_var, scope_vars, var_resolved};
use crate::text::{push_char, push_str, str_eq};

verus! {

/// Where the children of a particle are registered.
#[derive(Debug, Clone, Copy, PartialEq, Eq, Hash, Structural)]
pub enum ChildRegistry {
    Shell,
    Core,
}

/// The base kinds of particle.
#[derive(Debug, Clone, Copy, PartialEq, Eq, Hash, Structural)]
pub enum BaseKind {
    Root,
    Space,
    UserBase,
    Base,
    User,
    App,
    Mechtron,
    FileSystem,
    File,
    Database,
    Repo,
    BundleSeries,
    Bundle,
    Artifact,
    Control,
    Portal,
    Star,
    Driver,
    Global,
}

/// The name of a base kind.
pub open spec fn base_kind_name(b: BaseKind) -> Seq<char> {
    match b {
        BaseKind::Root => "Root"@,
        BaseKind::Space => "Space"@,
        BaseKind::UserBase => "UserBase"@,
        BaseKind::Base => "Base"@,
        BaseKind::User => "User"@,
        BaseKind::App => "App"@,
        BaseKind::Mechtron => "Mechtron"@,
        BaseKind::FileSystem => "FileSystem"@,
        BaseKind::File => "File"@,
        BaseKind::Database => "Database"@,
        BaseKind::Repo => "Repo"@,
        BaseKind::BundleSeries => "BundleSeries"@,
        BaseKind::Bundle => "Bundle"@,
        BaseKind::Artifact => "Artifact"@,
        BaseKind::Control => "Control"@,
        BaseKind::Portal => "Portal"@,
        BaseKind::Star => "Star"@,
        BaseKind::Driver => "Driver"@,
        BaseKind::Global => "Global"@,
    }
}

impl BaseKind {
    pub fn to_string(&self) -> (r: String)
        ensures
            r@ == base_kind_name(*self),
    {
        let s = match self {
            BaseKind::Root => "Root",
            BaseKind::Space => "Space",
            BaseKind::UserBase => "UserBase",
            BaseKind::Base => "Base",
            BaseKind::User => "User",
            BaseKind::App => "App",
            BaseKind::Mechtron => "Mechtron",
            BaseKind::FileSystem => "FileSystem",
            BaseKind::File => "File",
            BaseKind::Database => "Database",
            BaseKind::Repo => "Repo",
            BaseKind::BundleSeries => "BundleSeries",
            BaseKind::Bundle => "Bundle",
            BaseKind::Artifact => "Artifact",
            BaseKind::Control => "Control",
            BaseKind::Portal => "Portal",
            BaseKind::Star => "Star",
            BaseKind::Driver => "Driver",
            BaseKind::Global => "Global",
        };
        s.to_string()
    }

    /// The base kind with the name `s`.
    pub fn from_str(s: &str) -> (r: Result<BaseKind, MsgErr>)
        ensures
            match named_base_kind(s@) {
                Some(x) => r matches Ok(y) && y == x,
                None => r is Err,
            },
    {
        if str_eq(s, "Root") {
            Ok(BaseKind::Root)
        } else if str_eq(s, "Space") {
            Ok(BaseKind::Space)
        } else if str_eq(s, "UserBase") {
            Ok(BaseKind::UserBase)
        } else if str_eq(s, "Base") {
            Ok(BaseKind::Base)
        } else if str_eq(s, "User") {
            Ok(BaseKind::User)
        } else if str_eq(s, "App") {
            Ok(BaseKind::App)
        } else if str_eq(s, "Mechtron") {
            Ok(BaseKind::Mechtron)
        } else if str_eq(s, "FileSystem") {
            Ok(BaseKind::FileSystem)
        } else if str_eq(s, "File") {
            Ok(BaseKind::File)
        } else if str_eq(s, "Database") {
            Ok(BaseKind::Database)
        } else if str_eq(s, "Repo") {
            Ok(BaseKind::Repo)
        } else if str_eq(s, "BundleSeries") {
            Ok(BaseKind::BundleSeries)
        } else if str_eq(s, "Bundle") {
            Ok(BaseKind::Bundle)
        } else if str_eq(s, "Artifact") {
            Ok(BaseKind::Artifact)
        } else if str_eq(s, "Control") {
            Ok(BaseKind::Control)
        } else if str_eq(s, "Portal") {
            Ok(BaseKind::Portal)
        } else if str_eq(s, "Star") {
            Ok(BaseKind::Star)
        } else if str_eq(s, "Driver") {
            Ok(BaseKind::Driver)
        } else if str_eq(s, "Global") {
            Ok(BaseKind::Global)
        } else {
            Err(MsgErr::from_500("Matching variant not found"))
        }
    }

    /// The base kind named by a camel case name.
    pub fn try_from(base: CamelCase) -> (r: Result<BaseKind, MsgErr>)
        ensures
            match named_base_kind(base@) {
                Some(x) => r matches Ok(y) && y == x,
                None => r is Err,
            },
    {
        BaseKind::from_str(base.as_str())
    }

    /// Where the children of this kind of particle are registered.
    pub fn child_resource_registry_handler(&self) -> (r: ChildRegistry)
        ensures
            r == (if *self == BaseKind::UserBase {
                ChildRegistry::Core
            } else {
                ChildRegistry::Shell
            }),
    {
        match self {
            Self::UserBase => ChildRegistry::Core,
            _ => ChildRegistry::Shell,
        }
    }
}

/// The name of what convert_case's `to_case(Case::Kebab)` makes of a text.
pub uninterp spec fn kebab_of(s: Seq<char>) -> Seq<char>;

/// Writes a text in kebab case with convert_case's `to_case(Case::Kebab)`.
///
/// The contract claims only that the result is the name `kebab_of` of the text: convert_case
/// splits the text into words at its default boundaries, lowercases them and joins them with
/// `-`; which texts come out as skewer case is not stated.
#[verifier::external_body]
fn to_kebab(s: &str) -> (r: String)
    ensures
        r@ == kebab_of(s@),
{
    s.to_case(Case::Kebab)
}

impl BaseKind {
    /// The name in kebab case, where that is skewer case.
    pub fn to_skewer(&self) -> (r: SkewerCase)
        requires
            skewer_ok(kebab_of(base_kind_name(*self))),
        ensures
            r@ == kebab_of(base_kind_name(*self)),
    {
        let name = self.to_string();
        let k = to_kebab(name.as_str());
        SkewerCase::from_str(k.as_str()).unwrap()
    }
}

/// The kinds of star.
#[derive(Debug, Clone, Copy, PartialEq, Eq, Hash, Structural)]
pub enum StarSub {
    Central,
    Super,
    Nexus,
    Maelstrom,
    Scribe,
    Jump,
    Fold,
    Machine,
}

pub open spec fn star_sub_name(s: StarSub) -> Seq<char> {
    match s {
        StarSub::Central => "Central"@,
        StarSub::Super => "Super"@,
        StarSub::Nexus => "Nexus"@,
        StarSub::Maelstrom => "Maelstrom"@,
        StarSub::Scribe => "Scribe"@,
        StarSub::Jump => "Jump"@,
        StarSub::Fold => "Fold"@,
        StarSub::Machine => "Machine"@,
    }
}

impl StarSub {
    /// Whether a star of this kind relays waves to other stars.
    pub fn is_forwarder(&self) -> (b: bool)
        ensures
            b == !(*self == StarSub::Central || *self == StarSub::Machine),
    {
        match self {
            StarSub::Nexus => true,
            StarSub::Central => false,
            StarSub::Super => true,
            StarSub::Maelstrom => true,
            StarSub::Scribe => true,
            StarSub::Jump => true,
            StarSub::Fold => true,
            StarSub::Machine => false,
        }
    }

    pub fn to_string(&self) -> (r: String)
        ensures
            r@ == star_sub_name(*self),
    {
        let s = match self {
            StarSub::Central => "Central",
            StarSub::Super => "Super",
            StarSub::Nexus => "Nexus",
            StarSub::Maelstrom => "Maelstrom",
            StarSub::Scribe => "Scribe",
            StarSub::Jump => "Jump",
            StarSub::Fold => "Fold",
            StarSub::Machine => "Machine",
        };
        s.to_string()
    }

    pub fn from_str(s: &str) -> (r: Result<StarSub, MsgErr>)
        ensures
            match named_star_sub(s@) {
                Some(x) => r matches Ok(y) && y == x,
                None => r is Err,
            },
    {
        if str_eq(s, "Central") {
            Ok(StarSub::Central)
        } else if str_eq(s, "Super") {
            Ok(StarSub::Super)
        } else if str_eq(s, "Nexus") {
            Ok(StarSub::Nexus)
        } else if str_eq(s, "Maelstrom") {
            Ok(StarSub::Maelstrom)
        } else if str_eq(s, "Scribe") {
            Ok(StarSub::Scribe)
        } else if str_eq(s, "Jump") {
            Ok(StarSub::Jump)
        } else if str_eq(s, "Fold") {
            Ok(StarSub::Fold)
        } else if str_eq(s, "Machine") {
            Ok(StarSub::Machine)
        } else {
            Err(MsgErr::from_500("Matching variant not found"))
        }
    }
}

/// The sub kinds of a base.
#[derive(Debug, Clone, Copy, PartialEq, Eq, Hash, Structural)]
pub enum BaseSubKind {
    User,
    App,
    Mechtron,
    Database,
    Any,
    Driver,
}

pub open spec fn base_sub_name(s: BaseSubKind) -> Seq<char> {
    match s {
        BaseSubKind::User => "User"@,
        BaseSubKind::App => "App"@,
        BaseSubKind::Mechtron => "Mechtron"@,
        BaseSubKind::Database => "Database"@,
        BaseSubKind::Any => "Any"@,
        BaseSubKind::Driver => "Driver"@,
    }
}

impl BaseSubKind {
    pub fn to_string(&self) -> (r: String)
        ensures
            r@ == base_sub_name(*self),
    {
        let s = match self {
            BaseSubKind::User => "User",
            BaseSubKind::App => "App",
            BaseSubKind::Mechtron => "Mechtron",
            BaseSubKind::Database => "Database",
            BaseSubKind::Any => "Any",
            BaseSubKind::Driver => "Driver",
        };
        s.to_string()
    }

    pub fn from_str(s: &str) -> (r: Result<BaseSubKind, MsgErr>)
        ensures
            match named_base_sub(s@) {
                Some(x) => r matches Ok(y) && y == x,
                None => r is Err,
            },
    {
        if str_eq(s, "User") {
            Ok(BaseSubKind::User)
        } else if str_eq(s, "App") {
            Ok(BaseSubKind::App)
        } else if str_eq(s, "Mechtron") {
            Ok(BaseSubKind::Mechtron)
        } else if str_eq(s, "Database") {
            Ok(BaseSubKind::Database)
        } else if str_eq(s, "Any") {
            Ok(BaseSubKind::Any)
        } else if str_eq(s, "Driver") {
            Ok(BaseSubKind::Driver)
        } else {
            Err(MsgErr::from_500("Matching variant not found"))
        }
    }
}

/// The sub kinds of a file.
#[derive(Debug, Clone, Copy, PartialEq, Eq, Hash, Structural)]
pub enum FileSubKind {
    File,
    Dir,
}

pub open spec fn file_sub_name(s: FileSubKind) -> Seq<char> {
    match s {
        FileSubKind::File => "File"@,
        FileSubKind::Dir => "Dir"@,
    }
}

impl FileSubKind {
    pub fn to_string(&self) -> (r: String)
        ensures
            r@ == file_sub_name(*self),
    {
        match self {
            FileSubKind::File => "File".to_string(),
            FileSubKind::Dir => "Dir".to_string(),
        }
    }

    pub fn from_str(s: &str) -> (r: Result<FileSubKind, MsgErr>)
        ensures
            match named_file_sub(s@) {
                Some(x) => r matches Ok(y) && y == x,
                None => r is Err,
            },
    {
        if str_eq(s, "File") {
            Ok(FileSubKind::File)
        } else if str_eq(s, "Dir") {
            Ok(FileSubKind::Dir)
        } else {
            Err(MsgErr::from_500("Matching variant not found"))
        }
    }
}

/// The sub kinds of an artifact.
#[derive(Debug, Clone, Copy, PartialEq, Eq, Hash, Structural)]
pub enum ArtifactSubKind {
    Raw,
    ParticleConfig,
    Bind,
    Wasm,
    Dir,
}

pub open spec fn artifact_sub_name(s: ArtifactSubKind) -> Seq<char> {
    match s {
        ArtifactSubKind::Raw => "Raw"@,
        ArtifactSubKind::ParticleConfig => "ParticleConfig"@,
        ArtifactSubKind::Bind => "Bind"@,
        ArtifactSubKind::Wasm => "Wasm"@,
        ArtifactSubKind::Dir => "Dir"@,
    }
}

impl ArtifactSubKind {
    pub fn to_string(&self) -> (r: String)
        ensures
            r@ == artifact_sub_name(*self),
    {
        let s = match self {
            ArtifactSubKind::Raw => "Raw",
            ArtifactSubKind::ParticleConfig => "ParticleConfig",
            ArtifactSubKind::Bind => "Bind",
            ArtifactSubKind::Wasm => "Wasm",
            ArtifactSubKind::Dir => "Dir",
        };
        s.to_string()
    }

    pub fn from_str(s: &str) -> (r: Result<ArtifactSubKind, MsgErr>)
        ensures
            match named_artifact_sub(s@) {
                Some(x) => r matches Ok(y) && y == x,
                None => r is Err,
            },
    {
        if str_eq(s, "Raw") {
            Ok(ArtifactSubKind::Raw)
        } else if str_eq(s, "ParticleConfig") {
            Ok(ArtifactSubKind::ParticleConfig)
        } else if str_eq(s, "Bind") {
            Ok(ArtifactSubKind::Bind)
        } else if str_eq(s, "Wasm") {
            Ok(ArtifactSubKind::Wasm)
        } else if str_eq(s, "Dir") {
            Ok(ArtifactSubKind::Dir)
        } else {
            Err(MsgErr::from_500("Matching variant not found"))
        }
    }
}

/// The sub kinds of a user base.
#[derive(Debug, PartialEq, Eq, Hash)]
pub enum UserBaseSubKind {
    OAuth(Specific),
}

impl UserBaseSubKind {
    pub fn specific(&self) -> (r: Option<&Specific>)
        ensures
            r matches Some(s) && *s == self->OAuth_0,
    {
        match self {
            UserBaseSubKind::OAuth(specific) => Some(specific),
        }
    }
}

/// The sub kinds of a database.
#[derive(Debug, PartialEq, Eq, Hash)]
pub enum DatabaseSubKind {
    Relational(Specific),
}

impl DatabaseSubKind {
    pub fn specific(&self) -> (r: Option<&Specific>)
        ensures
            r matches Some(s) && *s == self->Relational_0,
    {
        match self {
            DatabaseSubKind::Relational(specific) => Some(specific),
        }
    }
}

/// The sub kind of a kind, if it has one.
#[derive(Debug, PartialEq, Eq, Hash)]
pub enum Sub {
    Nothing,
    Database(DatabaseSubKind),
    File(FileSubKind),
    Artifact(ArtifactSubKind),
    Base(BaseSubKind),
    UserBase(UserBaseSubKind),
    Star(StarSub),
}

impl Sub {
    /// The specific of the sub kind, where it carries one.
    pub fn specific(&self) -> (r: Option<&Specific>)
        ensures
            match self {
                Sub::Database(DatabaseSubKind::Relational(s)) => r matches Some(x) && *x == s,
                Sub::UserBase(UserBaseSubKind::OAuth(s)) => r matches Some(x) && *x == s,
                _ => r is None,
            },
    {
        match self {
            Sub::Database(sub) => sub.specific(),
            Sub::UserBase(sub) => sub.specific(),
            _ => None,
        }
    }
}

/// The name of a sub kind's variant.
pub open spec fn sub_name(s: Sub) -> Seq<char> {
    match s {
        Sub::Nothing => "None"@,
        Sub::Database(_) => "Database"@,
        Sub::File(_) => "File"@,
        Sub::Artifact(_) => "Artifact"@,
        Sub::Base(_) => "Base"@,
        Sub::UserBase(_) => "UserBase"@,
        Sub::Star(_) => "Star"@,
    }
}

impl Sub {
    /// The variant's name in kebab case, where that is skewer case.
    pub fn to_skewer(&self) -> (r: SkewerCase)
        requires
            skewer_ok(kebab_of(sub_name(*self))),
        ensures
            r@ == kebab_of(sub_name(*self)),
    {
        let name = self.to_string();
        let k = to_kebab(name.as_str());
        SkewerCase::from_str(k.as_str()).unwrap()
    }

    /// The name of the variant.
    pub fn to_string(&self) -> (r: String)
        ensures
            r@ == sub_name(*self),
    {
        let s = match self {
            Sub::Nothing => "None",
            Sub::Database(_) => "Database",
            Sub::File(_) => "File",
            Sub::Artifact(_) => "Artifact",
            Sub::Base(_) => "Base",
            Sub::UserBase(_) => "UserBase",
            Sub::Star(_) => "Star",
        };
        s.to_string()
    }
}

/// A kind of particle.
#[derive(Debug, PartialEq, Eq, Hash)]
pub enum Kind {
    Root,
    Space,
    User,
    App,
    Mechtron,
    FileSystem,
    Repo,
    BundleSeries,
    Bundle,
    Control,
    Portal,
    Driver,
    File(FileSubKind),
    Artifact(ArtifactSubKind),
    Database(DatabaseSubKind),
    Base(BaseSubKind),
    UserBase(UserBaseSubKind),
    Star(StarSub),
    Global,
}

/// The base kind of a kind.
pub open spec fn kind_base(k: Kind) -> BaseKind {
    match k {
        Kind::Root => BaseKind::Root,
        Kind::Space => BaseKind::Space,
        Kind::User => BaseKind::User,
        Kind::App => BaseKind::App,
        Kind::Mechtron => BaseKind::Mechtron,
        Kind::FileSystem => BaseKind::FileSystem,
        Kind::BundleSeries => BaseKind::BundleSeries,
        Kind::Bundle => BaseKind::Bundle,
        Kind::Control => BaseKind::Control,
        Kind::Portal => BaseKind::Portal,
        Kind::UserBase(_) => BaseKind::UserBase,
        Kind::File(_) => BaseKind::File,
        Kind::Artifact(_) => BaseKind::Artifact,
        Kind::Database(_) => BaseKind::Database,
        Kind::Base(_) => BaseKind::Base,
        Kind::Repo => BaseKind::Repo,
        Kind::Star(_) => BaseKind::Star,
        Kind::Driver => BaseKind::Driver,
        Kind::Global => BaseKind::Global,
    }
}

/// The sub kind of a kind: that of a file, an artifact, a database or a base.
pub open spec fn kind_sub(k: Kind) -> Sub {
    match k {
        Kind::File(s) => Sub::File(s),
        Kind::Artifact(s) => Sub::Artifact(s),
        Kind::Database(s) => Sub::Database(s),
        Kind::Base(s) => Sub::Base(s),
        _ => Sub::Nothing,
    }
}

/// The specific of a kind: only a relational database carries one.
pub open spec fn kind_specific(k: Kind) -> Option<Specific> {
    match k {
        Kind::Database(DatabaseSubKind::Relational(s)) => Some(s),
        _ => None,
    }
}

/// Whether the names of a kind's base and sub kind come out of kebab case as skewer case.
pub open spec fn kind_segments_skewer(k: Kind) -> bool {
    &&& skewer_ok(kebab_of(base_kind_name(kind_base(k))))
    &&& kind_sub(k) !is Nothing ==> skewer_ok(kebab_of(sub_name(kind_sub(k))))
}

/// The segments of a kind: base, then sub kind and specific where there are any, joined by `:`.
pub open spec fn kind_segments_text(k: Kind) -> Seq<char> {
    let base = kebab_of(base_kind_name(kind_base(k)));
    if kind_sub(k) is Nothing {
        base
    } else {
        let sub = kebab_of(sub_name(kind_sub(k)));
        match kind_specific(k) {
            Some(sp) => base + seq![':'] + sub + seq![':'] + specific_text(sp),
            None => base + seq![':'] + sub,
        }
    }
}

/// Something with a base kind.
pub trait ToBaseKind {
    spec fn base_of(&self) -> BaseKind;

    fn to_base(&self) -> (r: BaseKind)
        ensures
            r == self.base_of(),
    ;
}

impl ToBaseKind for BaseKind {
    open spec fn base_of(&self) -> BaseKind {
        *self
    }

    fn to_base(&self) -> (r: BaseKind) {
        *self
    }
}

impl ToBaseKind for Kind {
    open spec fn base_of(&self) -> BaseKind {
        kind_base(*self)
    }

    fn to_base(&self) -> (r: BaseKind) {
        match self {
            Kind::Root => BaseKind::Root,
            Kind::Space => BaseKind::Space,
            Kind::User => BaseKind::User,
            Kind::App => BaseKind::App,
            Kind::Mechtron => BaseKind::Mechtron,
            Kind::FileSystem => BaseKind::FileSystem,
            Kind::BundleSeries => BaseKind::BundleSeries,
            Kind::Bundle => BaseKind::Bundle,
            Kind::Control => BaseKind::Control,
            Kind::Portal => BaseKind::Portal,
            Kind::UserBase(_) => BaseKind::UserBase,
            Kind::File(_) => BaseKind::File,
            Kind::Artifact(_) => BaseKind::Artifact,
            Kind::Database(_) => BaseKind::Database,
            Kind::Base(_) => BaseKind::Base,
            Kind::Repo => BaseKind::Repo,
            Kind::Star(_) => BaseKind::Star,
            Kind::Driver => BaseKind::Driver,
            Kind::Global => BaseKind::Global,
        }
    }
}

/// A copy of a specific.
pub fn clone_specific(s: &Specific) -> (r: Specific)
    ensures
        r == *s,
{
    Specific {
        provider: s.provider.clone(),
        vendor: s.vendor.clone(),
        product: s.product.clone(),
        variant: s.variant.clone(),
        version: s.version.clone(),
    }
}

impl Kind {
    /// The sub kind: that of a file, an artifact, a database or a base; none for the others.
    pub fn sub(&self) -> (r: Sub)
        ensures
            r == kind_sub(*self),
    {
        match self {
            Kind::File(s) => Sub::File(*s),
            Kind::Artifact(s) => Sub::Artifact(*s),
            Kind::Database(DatabaseSubKind::Relational(s)) => Sub::Database(
                DatabaseSubKind::Relational(clone_specific(s)),
            ),
            Kind::Base(s) => Sub::Base(*s),
            _ => Sub::Nothing,
        }
    }

    /// The specific of the kind's sub kind: only a database carries one here.
    pub fn specific(&self) -> (r: Option<Specific>)
        ensures
            r == kind_specific(*self),
    {
        match self {
            Kind::Database(DatabaseSubKind::Relational(s)) => Some(clone_specific(s)),
            _ => None,
        }
    }

    /// The segments that name the kind in a point: the base kind, then the sub kind and the
    /// specific where there are any, in skewer case and joined by `:`.
    pub fn as_point_segments(&self) -> (r: String)
        requires
            kind_segments_skewer(*self),
        ensures
            r@ == kind_segments_text(*self),
    {
        let sub = self.sub();
        let mut r = self.to_base().to_skewer().to_string();
        match sub {
            Sub::Nothing => {},
            _ => {
                push_char(&mut r, ':');
                let s = sub.to_skewer().to_string();
                push_str(&mut r, s.as_str());
                match self.specific() {
                    Some(sp) => {
                        push_char(&mut r, ':');
                        let t = sp.to_string();
                        push_str(&mut r, t.as_str());
                    },
                    None => {},
                }
            },
        }
        assert(r@ =~= kind_segments_text(*self));
        r
    }

    /// The segments that name the kind, where its names come out of kebab case as skewer case;
    /// none where they do not.
    pub fn try_point_segments(&self) -> (r: Option<String>)
        ensures
            match r {
                Some(t) => kind_segments_skewer(*self) && t@ == kind_segments_text(*self),
                None => !kind_segments_skewer(*self),
            },
    {
        let base = self.to_base().to_string();
        let kb = to_kebab(base.as_str());
        match SkewerCase::from_str(kb.as_str()) {
            Ok(_) => {},
            Err(_) => {
                return None;
            },
        }
        let sub = self.sub();
        match sub {
            Sub::Nothing => {},
            _ => {
                let name = sub.to_string();
                let ks = to_kebab(name.as_str());
                match SkewerCase::from_str(ks.as_str()) {
                    Ok(_) => {},
                    Err(_) => {
                        return None;
                    },
                }
            },
        }
        Some(self.as_point_segments())
    }

    /// The name of the variant, which is that of its base kind.
    pub fn to_string(&self) -> (r: String)
        ensures
            r@ == base_kind_name(kind_base(*self)),
    {
        self.to_base().to_string()
    }

    /// The layers a wave passes in a particle of this kind.
    pub fn wave_traversal_plan(&self) -> (r: TraversalPlan)
        ensures
            r.stack@ == plan_stack(*self),
    {
        let mut stack: Vec<Layer> = Vec::new();
        match self {
            Kind::Mechtron | Kind::Portal => {
                stack.push(Layer::Field);
                stack.push(Layer::Shell);
                stack.push(Layer::Portal);
                stack.push(Layer::Host);
                stack.push(Layer::Guest);
                stack.push(Layer::Core);
            },
            _ => {
                stack.push(Layer::Field);
                stack.push(Layer::Shell);
                stack.push(Layer::Core);
            },
        }
        TraversalPlan::new(stack)
    }
}

/// The layers a wave passes in a particle of kind `k`, from the fabric to the core: every
/// layer from the field to the core for mechtrons and portals, else the field, the shell and
/// the core.
pub open spec fn plan_stack(k: Kind) -> Seq<Layer> {
    match k {
        Kind::Mechtron | Kind::Portal => seq![
            Layer::Field,
            Layer::Shell,
            Layer::Portal,
            Layer::Host,
            Layer::Guest,
            Layer::Core,
        ],
        _ => seq![Layer::Field, Layer::Shell, Layer::Core],
    }
}

/// A kind in parts: a base, and the names of a sub kind and a specific where there are any.
pub struct KindParts {
    pub base: BaseKind,
    pub sub: Option<CamelCase>,
    pub specific: Option<Specific>,
}

impl KindParts {
    pub fn root() -> (r: Self)
        ensures
            r.base == BaseKind::Root,
            r.sub is None,
            r.specific is None,
    {
        Self { base: BaseKind::Root, sub: None, specific: None }
    }

    pub fn new(kind: BaseKind, sub: Option<CamelCase>, specific: Option<Specific>) -> (r: Self)
        ensures
            r.base == kind,
            r.sub == sub,
            r.specific == specific,
    {
        Self { base: kind, sub, specific }
    }
}

/// The text of kind parts: `Base`, `Base<Sub>` or `Base<Sub<specific>>`; a specific without a
/// sub kind is not shown.
pub open spec fn kind_parts_text(p: KindParts) -> Seq<char> {
    match p.sub {
        Some(sub) => match p.specific {
            Some(sp) => base_kind_name(p.base) + seq!['<'] + sub@ + seq!['<'] + specific_text(sp)
                + seq!['>', '>'],
            None => base_kind_name(p.base) + seq!['<'] + sub@ + seq!['>'],
        },
        None => base_kind_name(p.base),
    }
}

impl KindParts {
    pub fn to_string(&self) -> (r: String)
        ensures
            r@ == kind_parts_text(*self),
    {
        let mut r = self.base.to_string();
        match &self.sub {
            Some(sub) => {
                push_char(&mut r, '<');
                let sub = sub.to_string();
                push_str(&mut r, sub.as_str());
                match &self.specific {
                    Some(sp) => {
                        push_char(&mut r, '<');
                        let sp = sp.to_string();
                        push_str(&mut r, sp.as_str());
                        push_char(&mut r, '>');
                        push_char(&mut r, '>');
                    },
                    None => {
                        push_char(&mut r, '>');
                    },
                }
            },
            None => {},
        }
        assert(r@ =~= kind_parts_text(*self));
        r
    }
}

/// Kind parts as they were read: the base kind still a name.
pub struct KindLex {
    pub base: CamelCase,
    pub sub: Option<CamelCase>,
    pub specific: Option<Specific>,
}

impl KindLex {
    /// The kind parts, where the base names a base kind.
    pub fn try_into(self) -> (r: Result<KindParts, MsgErr>)
        ensures
            match named_base_kind(self.base@) {
                Some(b) => r matches Ok(p) && p.base == b && p.sub == self.sub && p.specific
                    == self.specific,
                None => r is Err,
            },
    {
        let KindLex { base, sub, specific } = self;
        let base = BaseKind::try_from(base)?;
        Ok(KindParts { base, sub, specific })
    }
}

impl ToBaseKind for KindParts {
    open spec fn base_of(&self) -> BaseKind {
        self.base
    }

    fn to_base(&self) -> (r: BaseKind) {
        self.base
    }
}

/// The BaseKind named `s`, if any.
pub open spec fn named_base_kind(s: Seq<char>) -> Option<BaseKind> {
    if s == "Root"@ {
        Some(BaseKind::Root)
    } else if s == "Space"@ {
        Some(BaseKind::Space)
    } else if s == "UserBase"@ {
        Some(BaseKind::UserBase)
    } else if s == "Base"@ {
        Some(BaseKind::Base)
    } else if s == "User"@ {
        Some(BaseKind::User)
    } else if s == "App"@ {
        Some(BaseKind::App)
    } else if s == "Mechtron"@ {
        Some(BaseKind::Mechtron)
    } else if s == "FileSystem"@ {
        Some(BaseKind::FileSystem)
    } else if s == "File"@ {
        Some(BaseKind::File)
    } else if s == "Database"@ {
        Some(BaseKind::Database)
    } else if s == "Repo"@ {
        Some(BaseKind::Repo)
    } else if s == "BundleSeries"@ {
        Some(BaseKind::BundleSeries)
    } else if s == "Bundle"@ {
        Some(BaseKind::Bundle)
    } else if s == "Artifact"@ {
        Some(BaseKind::Artifact)
    } else if s == "Control"@ {
        Some(BaseKind::Control)
    } else if s == "Portal"@ {
        Some(BaseKind::Portal)
    } else if s == "Star"@ {
        Some(BaseKind::Star)
    } else if s == "Driver"@ {
        Some(BaseKind::Driver)
    } else if s == "Global"@ {
        Some(BaseKind::Global)
    } else {
        None
    }
}

/// The StarSub named `s`, if any.
pub open spec fn named_star_sub(s: Seq<char>) -> Option<StarSub> {
    if s == "Central"@ {
        Some(StarSub::Central)
    } else if s == "Super"@ {
        Some(StarSub::Super)
    } else if s == "Nexus"@ {
        Some(StarSub::Nexus)
    } else if s == "Maelstrom"@ {
        Some(StarSub::Maelstrom)
    } else if s == "Scribe"@ {
        Some(StarSub::Scribe)
    } else if s == "Jump"@ {
        Some(StarSub::Jump)
    } else if s == "Fold"@ {
        Some(StarSub::Fold)
    } else if s == "Machine"@ {
        Some(StarSub::Machine)
    } else {
        None
    }
}

/// The BaseSubKind named `s`, if any.
pub open spec fn named_base_sub(s: Seq<char>) -> Option<BaseSubKind> {
    if s == "User"@ {
        Some(BaseSubKind::User)
    } else if s == "App"@ {
        Some(BaseSubKind::App)
    } else if s == "Mechtron"@ {
        Some(BaseSubKind::Mechtron)
    } else if s == "Database"@ {
        Some(BaseSubKind::Database)
    } else if s == "Any"@ {
        Some(BaseSubKind::Any)
    } else if s == "Driver"@ {
        Some(BaseSubKind::Driver)
    } else {
        None
    }
}

/// The FileSubKind named `s`, if any.
pub open spec fn named_file_sub(s: Seq<char>) -> Option<FileSubKind> {
    if s == "File"@ {
        Some(FileSubKind::File)
    } else if s == "Dir"@ {
        Some(FileSubKind::Dir)
    } else {
        None
    }
}

/// The ArtifactSubKind named `s`, if any.
pub open spec fn named_artifact_sub(s: Seq<char>) -> Option<ArtifactSubKind> {
    if s == "Raw"@ {
        Some(ArtifactSubKind::Raw)
    } else if s == "ParticleConfig"@ {
        Some(ArtifactSubKind::ParticleConfig)
    } else if s == "Bind"@ {
        Some(ArtifactSubKind::Bind)
    } else if s == "Wasm"@ {
        Some(ArtifactSubKind::Wasm)
    } else if s == "Dir"@ {
        Some(ArtifactSubKind::Dir)
    } else {
        None
    }
}

/// The kind that parts make, or `None` where they make none: a database needs the sub kind
/// `Relational` and a specific, a user base the sub kind `OAuth` and a specific; a base, a file,
/// an artifact and a star need one of their sub kinds; the other bases take neither.
pub open spec fn kind_of_parts(p: KindParts) -> Option<Kind> {
    match p.base {
        BaseKind::Database => match (p.sub, p.specific) {
            (Some(s), Some(x)) => if s@ == "Relational"@ {
                Some(Kind::Database(DatabaseSubKind::Relational(x)))
            } else {
                None
            },
            _ => None,
        },
        BaseKind::UserBase => match (p.sub, p.specific) {
            (Some(s), Some(x)) => if s@ == "OAuth"@ {
                Some(Kind::UserBase(UserBaseSubKind::OAuth(x)))
            } else {
                None
            },
            _ => None,
        },
        BaseKind::Base => match p.sub {
            Some(s) => match named_base_sub(s@) {
                Some(b) => Some(Kind::Base(b)),
                None => None,
            },
            None => None,
        },
        BaseKind::File => match p.sub {
            Some(s) => match named_file_sub(s@) {
                Some(b) => Some(Kind::File(b)),
                None => None,
            },
            None => None,
        },
        BaseKind::Artifact => match p.sub {
            Some(s) => match named_artifact_sub(s@) {
                Some(b) => Some(Kind::Artifact(b)),
                None => None,
            },
            None => None,
        },
        BaseKind::Star => match p.sub {
            Some(s) => match named_star_sub(s@) {
                Some(b) => Some(Kind::Star(b)),
                None => None,
            },
            None => None,
        },
        BaseKind::Root => Some(Kind::Root),
        BaseKind::Space => Some(Kind::Space),
        BaseKind::User => Some(Kind::User),
        BaseKind::App => Some(Kind::App),
        BaseKind::Mechtron => Some(Kind::Mechtron),
        BaseKind::FileSystem => Some(Kind::FileSystem),
        BaseKind::BundleSeries => Some(Kind::BundleSeries),
        BaseKind::Bundle => Some(Kind::Bundle),
        BaseKind::Control => Some(Kind::Control),
        BaseKind::Portal => Some(Kind::Portal),
        BaseKind::Repo => Some(Kind::Repo),
        BaseKind::Driver => Some(Kind::Driver),
        BaseKind::Global => Some(Kind::Global),
    }
}

fn missing(message: &str) -> (r: MsgErr)
    ensures
        r.is_status(500, message@),
{
    MsgErr::from_500(message)
}

/// The message for a sub kind that a database or a user base does not have; it names the sub
/// kind.
pub open spec fn unexpected_sub_message(sub: Seq<char>) -> Seq<char> {
    "unexpected Database SubKind '"@ + sub + "'"@
}

fn unexpected_sub(sub: &CamelCase) -> (r: MsgErr)
    ensures
        r.is_status(500, unexpected_sub_message(sub@)),
{
    let mut m = String::new();
    push_str(&mut m, "unexpected Database SubKind '");
    push_str(&mut m, sub.as_str());
    push_str(&mut m, "'");
    MsgErr::from_500(m.as_str())
}

impl Kind {
    /// The kind its parts make.
    pub fn try_from(value: KindParts) -> (r: Result<Kind, MsgErr>)
        ensures
            match kind_of_parts(value) {
                Some(k) => r matches Ok(x) && x == k,
                None => r is Err,
            },
            value.base == BaseKind::Database && value.sub is Some && value.sub->0@ != "Relational"@
                ==> (r matches Err(e) && e.is_status(500, unexpected_sub_message(value.sub->0@))),
            value.base == BaseKind::UserBase && value.sub is Some && value.sub->0@ != "OAuth"@ ==> (
            r matches Err(e) && e.is_status(500, unexpected_sub_message(value.sub->0@))),
    {
        let ghost parts = value;
        let KindParts { base, sub, specific } = value;
        match base {
            BaseKind::Database => {
                let sub = match sub {
                    Some(s) => s,
                    None => return Err(missing("Database<?> requires a Sub Kind")),
                };
                if str_eq(sub.as_str(), "Relational") {
                    match specific {
                        Some(x) => Ok(Kind::Database(DatabaseSubKind::Relational(x))),
                        None => Err(missing("Database<Relational<?>> requires a Specific")),
                    }
                } else {
                    Err(unexpected_sub(&sub))
                }
            },
            BaseKind::UserBase => {
                let sub = match sub {
                    Some(s) => s,
                    None => return Err(missing("UserBase<?> requires a Sub Kind")),
                };
                if str_eq(sub.as_str(), "OAuth") {
                    match specific {
                        Some(x) => Ok(Kind::UserBase(UserBaseSubKind::OAuth(x))),
                        None => Err(missing("UserBase<OAuth<?>> requires a Specific")),
                    }
                } else {
                    Err(unexpected_sub(&sub))
                }
            },
            BaseKind::Base => match sub {
                Some(s) => {
                    let r = BaseSubKind::from_str(s.as_str());
                    match r {
                        Ok(b) => Ok(Kind::Base(b)),
                        Err(e) => Err(e),
                    }
                },
                None => Err(missing("Base<?> requires a Sub Kind")),
            },
            BaseKind::File => match sub {
                Some(s) => match FileSubKind::from_str(s.as_str()) {
                    Ok(b) => Ok(Kind::File(b)),
                    Err(e) => Err(e),
                },
                None => Err(missing("File<?> requires a Sub Kind")),
            },
            BaseKind::Artifact => match sub {
                Some(s) => match ArtifactSubKind::from_str(s.as_str()) {
                    Ok(b) => Ok(Kind::Artifact(b)),
                    Err(e) => Err(e),
                },
                None => Err(missing("Artifact<?> requires a sub kind")),
            },
            BaseKind::Star => match sub {
                Some(s) => match StarSub::from_str(s.as_str()) {
                    Ok(b) => Ok(Kind::Star(b)),
                    Err(e) => Err(e),
                },
                None => Err(missing("Star<?> requires a sub kind")),
            },
            BaseKind::Root => Ok(Kind::Root),
            BaseKind::Space => Ok(Kind::Space),
            BaseKind::User => Ok(Kind::User),
            BaseKind::App => Ok(Kind::App),
            BaseKind::Mechtron => Ok(Kind::Mechtron),
            BaseKind::FileSystem => Ok(Kind::FileSystem),
            BaseKind::BundleSeries => Ok(Kind::BundleSeries),
            BaseKind::Bundle => Ok(Kind::Bundle),
            BaseKind::Control => Ok(Kind::Control),
            BaseKind::Portal => Ok(Kind::Portal),
            BaseKind::Repo => Ok(Kind::Repo),
            BaseKind::Driver => Ok(Kind::Driver),
            BaseKind::Global => Ok(Kind::Global),
        }
    }
}

/// A kind made from parts has the base of the parts.
pub proof fn law_kind_keeps_base(p: KindParts)
    ensures
        kind_of_parts(p) matches Some(k) ==> kind_base(k) == p.base,
{
}

/// A point together with the kind of the particle there.
pub struct PointKindDef<Pnt> {
    pub point: Pnt,
    pub kind: Kind,
}

pub type PointKind = PointKindDef<Point>;

pub type PointKindCtx = PointKindDef<PointCtx>;

pub type PointKindVar = PointKindDef<PointVar>;

impl PointKindDef<Point> {
    pub fn new(point: Point, kind: Kind) -> (r: Self)
        ensures
            r.point == point,
            r.kind == kind,
    {
        Self { point, kind }
    }

    /// The text `point<Kind>`.
    pub fn to_string(&self) -> (r: String)
        ensures
            r@ == point_string(self.point@) + seq!['<'] + base_kind_name(kind_base(self.kind))
                + seq!['>'],
    {
        let mut r = self.point.to_string();
        push_char(&mut r, '<');
        let k = self.kind.to_string();
        push_str(&mut r, k.as_str());
        push_char(&mut r, '>');
        r
    }
}

impl PointKindDef<PointVar> {
    /// Resolves the variables of the point against `env`; the kind is kept.
    pub fn to_resolved(self, env: &Env) -> (r: Result<PointKindCtx, MsgErr>)
        ensures
            match var_resolved(self.point@, scope_vars(*env)) {
                Some(m) => r matches Ok(x) && x.point@ == m && x.kind == self.kind,
                None => r is Err,
            },
    {
        let PointKindDef { point, kind } = self;
        let point = resolve_point_var(point, env)?;
        Ok(PointKindDef { point, kind })
    }

    /// Resolves the variables and then the context references of the point against `env`.
    pub fn to_resolved_point_kind(self, env: &Env) -> (r: Result<PointKind, MsgErr>)
        ensures
            match var_resolved(self.point@, scope_vars(*env)) {
                Some(m) => match ctx_resolved(m, env.point@) {
                    Some(q) => r matches Ok(x) && x.point@ == q && x.kind == self.kind,
                    None => r is Err,
                },
                None => r is Err,
            },
    {
        let ctx = self.to_resolved(env)?;
        ctx.to_resolved(env)
    }
}

impl PointKindDef<PointCtx> {
    /// Resolves the context references of the point against `env`; the kind is kept.
    pub fn to_resolved(self, env: &Env) -> (r: Result<PointKind, MsgErr>)
        ensures
            match ctx_resolved(self.point@, env.point@) {
                Some(m) => r matches Ok(x) && x.point@ == m && x.kind == self.kind,
                None => r is Err,
            },
    {
        let PointKindDef { point, kind } = self;
        let point = resolve_point_ctx(point, env)?;
        Ok(PointKindDef { point, kind })
    }
}

} // verus!
