//! Points: the addresses of particles in the mesh, their route and segments, and how they print.
use vstd::prelude::*;
use std::ops::Range;
use crate::text::{decimal, push_char, push_str, u64_to_string};
use crate::error::MsgErr;

verus! {

/// Where in the source text a variable or a context reference stood.
#[derive(Debug, PartialEq, Eq)]
pub struct Trace {
    pub range: Range<usize>,
}

impl Clone for Trace {
    fn clone(&self) -> (r: Self)
        ensures
            r == *self,
    {
        Trace { range: Range { start: self.range.start, end: self.range.end } }
    }
}

impl Trace {
    pub fn new(start: usize, end: usize) -> (r: Self)
        ensures
            r.range.start == start,
            r.range.end == end,
    {
        Trace { range: Range { start, end } }
    }
}

/// A semantic version: numbers and the prerelease and build texts.
#[derive(Debug, PartialEq, Eq, Hash)]
pub struct Version {
    pub major: u64,
    pub minor: u64,
    pub patch: u64,
    pub pre: String,
    pub build: String,
}

pub struct VersionModel {
    pub major: u64,
    pub minor: u64,
    pub patch: u64,
    pub pre: Seq<char>,
    pub build: Seq<char>,
}

impl View for Version {
    type V = VersionModel;

    open spec fn view(&self) -> VersionModel {
        VersionModel {
            major: self.major,
            minor: self.minor,
            patch: self.patch,
            pre: self.pre@,
            build: self.build@,
        }
    }
}

impl Clone for Version {
    fn clone(&self) -> (r: Self)
        ensures
            r == *self,
    {
        Version {
            major: self.major,
            minor: self.minor,
            patch: self.patch,
            pre: self.pre.clone(),
            build: self.build.clone(),
        }
    }
}

/// The text of a version: `major.minor.patch`, then `-pre` and `+build` where they are not empty.
pub open spec fn version_text(v: VersionModel) -> Seq<char> {
    decimal(v.major as nat) + seq!['.'] + decimal(v.minor as nat) + seq!['.'] + decimal(
        v.patch as nat,
    ) + (if v.pre.len() > 0 {
        seq!['-'] + v.pre
    } else {
        Seq::empty()
    }) + (if v.build.len() > 0 {
        seq!['+'] + v.build
    } else {
        Seq::empty()
    })
}

impl Version {
    pub fn to_string(&self) -> (r: String)
        ensures
            r@ == version_text(self@),
    {
        let mut r = u64_to_string(self.major);
        push_char(&mut r, '.');
        let minor = u64_to_string(self.minor);
        push_str(&mut r, minor.as_str());
        push_char(&mut r, '.');
        let patch = u64_to_string(self.patch);
        push_str(&mut r, patch.as_str());
        if self.pre.unicode_len() > 0 {
            push_char(&mut r, '-');
            push_str(&mut r, self.pre.as_str());
        }
        if self.build.unicode_len() > 0 {
            push_char(&mut r, '+');
            push_str(&mut r, self.build.as_str());
        }
        assert(r@ =~= version_text(self@));
        r
    }
}

/// A named variable reference `${name}` and where it stood.
#[derive(Debug, PartialEq, Eq)]
pub struct Variable {
    pub name: String,
    pub trace: Trace,
}

pub struct VarModel {
    pub name: Seq<char>,
    pub trace: Trace,
}

impl View for Variable {
    type V = VarModel;

    open spec fn view(&self) -> VarModel {
        VarModel { name: self.name@, trace: self.trace }
    }
}

impl Clone for Variable {
    fn clone(&self) -> (r: Self)
        ensures
            r == *self,
    {
        Variable { name: self.name.clone(), trace: self.trace.clone() }
    }
}

impl Variable {
    pub fn new(name: String, trace: Trace) -> (r: Self)
        ensures
            r.name == name,
            r.trace == trace,
    {
        Self { name, trace }
    }
}

/// The text of a variable reference.
pub open spec fn var_text(name: Seq<char>) -> Seq<char> {
    seq!['$', '{'] + name + seq!['}']
}

/// The abstract value of any route segment.
pub enum RouteModel {
    This,
    Local,
    Remote,
    Global,
    Domain(Seq<char>),
    Tag(Seq<char>),
    Star(Seq<char>),
    Var(VarModel),
}

/// The abstract value of any point segment.
pub enum SegModel {
    Root,
    Space(Seq<char>),
    Base(Seq<char>),
    FilesystemRootDir,
    Dir(Seq<char>),
    File(Seq<char>),
    Version(VersionModel),
    Working(Trace),
    Pop(Trace),
    Var(VarModel),
}

/// The abstract value of a point.
pub struct PointModel {
    pub route: RouteModel,
    pub segments: Seq<SegModel>,
}

/// The text of a route segment.
pub open spec fn route_text(r: RouteModel) -> Seq<char> {
    match r {
        RouteModel::This => seq!['.'],
        RouteModel::Local => seq!['L', 'O', 'C', 'A', 'L'],
        RouteModel::Remote => seq!['R', 'E', 'M', 'O', 'T', 'E'],
        RouteModel::Global => seq!['G', 'L', 'O', 'B', 'A', 'L'],
        RouteModel::Domain(d) => d,
        RouteModel::Tag(t) => seq!['['] + t + seq![']'],
        RouteModel::Star(s) => seq!['<', '<'] + s + seq!['>', '>'],
        RouteModel::Var(v) => var_text(v.name),
    }
}

/// The text of a point segment.
pub open spec fn seg_text(s: SegModel) -> Seq<char> {
    match s {
        SegModel::Root => Seq::empty(),
        SegModel::Space(t) => t,
        SegModel::Base(t) => t,
        SegModel::FilesystemRootDir => seq!['/'],
        SegModel::Dir(t) => t,
        SegModel::File(t) => t,
        SegModel::Version(v) => version_text(v),
        SegModel::Working(_) => seq!['.'],
        SegModel::Pop(_) => seq!['.', '.'],
        SegModel::Var(v) => var_text(v.name),
    }
}

/// The kind of a point segment.
#[derive(Debug, Clone, Copy, PartialEq, Eq, Hash, Structural)]
pub enum PointSegKind {
    Root,
    Space,
    Base,
    FilesystemRootDir,
    Dir,
    File,
    Version,
    Pop,
    Working,
    Var,
}

pub open spec fn seg_kind(s: SegModel) -> PointSegKind {
    match s {
        SegModel::Root => PointSegKind::Root,
        SegModel::Space(_) => PointSegKind::Space,
        SegModel::Base(_) => PointSegKind::Base,
        SegModel::FilesystemRootDir => PointSegKind::FilesystemRootDir,
        SegModel::Dir(_) => PointSegKind::Dir,
        SegModel::File(_) => PointSegKind::File,
        SegModel::Version(_) => PointSegKind::Version,
        SegModel::Working(_) => PointSegKind::Working,
        SegModel::Pop(_) => PointSegKind::Pop,
        SegModel::Var(_) => PointSegKind::Var,
    }
}

/// The delimiter printed before a segment of this kind, given whether the filesystem root
/// has been passed.
pub open spec fn delim_text(k: PointSegKind, post_fileroot: bool) -> Seq<char> {
    match k {
        PointSegKind::Space => Seq::empty(),
        PointSegKind::Base => seq![':'],
        PointSegKind::Dir => Seq::empty(),
        PointSegKind::File => Seq::empty(),
        PointSegKind::Version => seq![':'],
        PointSegKind::FilesystemRootDir => seq![':'],
        PointSegKind::Root => Seq::empty(),
        _ => if post_fileroot {
            Seq::empty()
        } else {
            seq![':']
        },
    }
}

pub open spec fn kind_is_normalized(k: PointSegKind) -> bool {
    !(k == PointSegKind::Pop || k == PointSegKind::Working || k == PointSegKind::Var)
}

pub open spec fn kind_is_filesystem_seg(k: PointSegKind) -> bool {
    k == PointSegKind::FilesystemRootDir || k == PointSegKind::Dir || k == PointSegKind::File
        || k == PointSegKind::Pop || k == PointSegKind::Working || k == PointSegKind::Var
}

pub open spec fn kind_is_mesh_seg(k: PointSegKind) -> bool {
    !(k == PointSegKind::FilesystemRootDir || k == PointSegKind::Dir || k == PointSegKind::File)
}

impl PointSegKind {
    pub fn preceding_delim(&self, post_fileroot: bool) -> (r: &'static str)
        ensures
            r@ == delim_text(*self, post_fileroot),
    {
        proof {
            reveal_strlit("");
            reveal_strlit(":");
        }
        match self {
            Self::Space => "",
            Self::Base => ":",
            Self::Dir => "",
            Self::File => "",
            Self::Version => ":",
            Self::FilesystemRootDir => ":",
            Self::Root => "",
            Self::Pop => if post_fileroot {
                ""
            } else {
                ":"
            },
            Self::Working => if post_fileroot {
                ""
            } else {
                ":"
            },
            Self::Var => if post_fileroot {
                ""
            } else {
                ":"
            },
        }
    }

    pub fn is_normalized(&self) -> (b: bool)
        ensures
            b == kind_is_normalized(*self),
    {
        match self {
            Self::Pop => false,
            Self::Working => false,
            Self::Var => false,
            _ => true,
        }
    }

    pub fn is_version(&self) -> (b: bool)
        ensures
            b == (*self == PointSegKind::Version),
    {
        match self {
            Self::Version => true,
            _ => false,
        }
    }

    pub fn is_file(&self) -> (b: bool)
        ensures
            b == (*self == PointSegKind::File),
    {
        match self {
            Self::File => true,
            _ => false,
        }
    }

    pub fn is_dir(&self) -> (b: bool)
        ensures
            b == (*self == PointSegKind::Dir),
    {
        match self {
            Self::Dir => true,
            _ => false,
        }
    }

    pub fn is_filesystem_seg(&self) -> (b: bool)
        ensures
            b == kind_is_filesystem_seg(*self),
    {
        match self {
            PointSegKind::Root => false,
            PointSegKind::Space => false,
            PointSegKind::Base => false,
            PointSegKind::FilesystemRootDir => true,
            PointSegKind::Dir => true,
            PointSegKind::File => true,
            PointSegKind::Version => false,
            PointSegKind::Pop => true,
            PointSegKind::Working => true,
            PointSegKind::Var => true,
        }
    }

    pub fn is_mesh_seg(&self) -> (b: bool)
        ensures
            b == kind_is_mesh_seg(*self),
    {
        match self {
            PointSegKind::Root => true,
            PointSegKind::Space => true,
            PointSegKind::Base => true,
            PointSegKind::FilesystemRootDir => false,
            PointSegKind::Dir => false,
            PointSegKind::File => false,
            PointSegKind::Version => true,
            PointSegKind::Pop => true,
            PointSegKind::Working => true,
            PointSegKind::Var => true,
        }
    }

    pub fn to_string(&self) -> (r: String)
        ensures
            r@ == kind_name(*self),
    {
        let s = match self {
            PointSegKind::Root => "Root",
            PointSegKind::Space => "Space",
            PointSegKind::Base => "Base",
            PointSegKind::FilesystemRootDir => "FilesystemRootDir",
            PointSegKind::Dir => "Dir",
            PointSegKind::File => "File",
            PointSegKind::Version => "Version",
            PointSegKind::Pop => "Pop",
            PointSegKind::Working => "Working",
            PointSegKind::Var => "Var",
        };
        s.to_string()
    }
}

/// The name of a segment kind, as it prints.
pub open spec fn kind_name(k: PointSegKind) -> Seq<char> {
    match k {
        PointSegKind::Root => "Root"@,
        PointSegKind::Space => "Space"@,
        PointSegKind::Base => "Base"@,
        PointSegKind::FilesystemRootDir => "FilesystemRootDir"@,
        PointSegKind::Dir => "Dir"@,
        PointSegKind::File => "File"@,
        PointSegKind::Version => "Version"@,
        PointSegKind::Pop => "Pop"@,
        PointSegKind::Working => "Working"@,
        PointSegKind::Var => "Var"@,
    }
}


/// Queries on a route segment.
pub trait RouteSegQuery: View<V = RouteModel> {
    fn is_local(&self) -> (b: bool)
        ensures
            b == (self@ is This),
    ;

    fn is_global(&self) -> (b: bool)
        ensures
            b == (self@ is Global),
    ;

    fn to_string(&self) -> (r: String)
        ensures
            r@ == route_text(self@),
    ;

    /// A copy of this segment.
    fn duplicate(&self) -> (r: Self) where Self: Sized
        ensures
            r == *self,
    ;
}

/// Queries on a point segment.
pub trait PointSegQuery: View<V = SegModel> {
    fn is_filesystem_root(&self) -> (b: bool)
        ensures
            b == (self@ is FilesystemRootDir),
    ;

    fn kind(&self) -> (k: PointSegKind)
        ensures
            k == seg_kind(self@),
    ;

    fn to_string(&self) -> (r: String)
        ensures
            r@ == seg_text(self@),
    ;

    /// A copy of this segment.
    fn duplicate(&self) -> (r: Self) where Self: Sized
        ensures
            r == *self,
    ;
}

/// Marks the three forms of point segment.
pub trait PointSegment {}

/// A route segment of a concrete point.
#[derive(Debug, PartialEq, Eq, Hash)]
pub enum RouteSeg {
    This,
    Local,
    Remote,
    Global,
    Domain(String),
    Tag(String),
    Star(String),
}

/// A route segment that may still be a variable.
#[derive(Debug, PartialEq, Eq)]
pub enum RouteSegVar {
    This,
    Local,
    Remote,
    Global,
    Domain(String),
    Tag(String),
    Star(String),
    Var(Variable),
}

impl View for RouteSeg {
    type V = RouteModel;

    open spec fn view(&self) -> RouteModel {
        match self {
            RouteSeg::This => RouteModel::This,
            RouteSeg::Local => RouteModel::Local,
            RouteSeg::Remote => RouteModel::Remote,
            RouteSeg::Global => RouteModel::Global,
            RouteSeg::Domain(d) => RouteModel::Domain(d@),
            RouteSeg::Tag(t) => RouteModel::Tag(t@),
            RouteSeg::Star(s) => RouteModel::Star(s@),
        }
    }
}

impl View for RouteSegVar {
    type V = RouteModel;

    open spec fn view(&self) -> RouteModel {
        match self {
            RouteSegVar::This => RouteModel::This,
            RouteSegVar::Local => RouteModel::Local,
            RouteSegVar::Remote => RouteModel::Remote,
            RouteSegVar::Global => RouteModel::Global,
            RouteSegVar::Domain(d) => RouteModel::Domain(d@),
            RouteSegVar::Tag(t) => RouteModel::Tag(t@),
            RouteSegVar::Star(s) => RouteModel::Star(s@),
            RouteSegVar::Var(v) => RouteModel::Var(v@),
        }
    }
}

impl Clone for RouteSeg {
    fn clone(&self) -> (r: Self)
        ensures
            r == *self,
    {
        match self {
            RouteSeg::This => RouteSeg::This,
            RouteSeg::Local => RouteSeg::Local,
            RouteSeg::Remote => RouteSeg::Remote,
            RouteSeg::Global => RouteSeg::Global,
            RouteSeg::Domain(d) => RouteSeg::Domain(d.clone()),
            RouteSeg::Tag(t) => RouteSeg::Tag(t.clone()),
            RouteSeg::Star(s) => RouteSeg::Star(s.clone()),
        }
    }
}

impl Clone for RouteSegVar {
    fn clone(&self) -> (r: Self)
        ensures
            r == *self,
    {
        match self {
            RouteSegVar::This => RouteSegVar::This,
            RouteSegVar::Local => RouteSegVar::Local,
            RouteSegVar::Remote => RouteSegVar::Remote,
            RouteSegVar::Global => RouteSegVar::Global,
            RouteSegVar::Domain(d) => RouteSegVar::Domain(d.clone()),
            RouteSegVar::Tag(t) => RouteSegVar::Tag(t.clone()),
            RouteSegVar::Star(s) => RouteSegVar::Star(s.clone()),
            RouteSegVar::Var(v) => RouteSegVar::Var(v.clone()),
        }
    }
}


/// The text `${name}` of a variable reference.
pub fn var_string(name: &String) -> (r: String)
    ensures
        r@ == var_text(name@),
{
    let mut r = String::new();
    push_char(&mut r, '$');
    push_char(&mut r, '{');
    push_str(&mut r, name.as_str());
    push_char(&mut r, '}');
    assert(r@ =~= var_text(name@));
    r
}

fn wrapped(open: &str, inner: &String, close: &str) -> (r: String)
    ensures
        r@ == open@ + inner@ + close@,
{
    let mut r = String::new();
    push_str(&mut r, open);
    push_str(&mut r, inner.as_str());
    push_str(&mut r, close);
    assert(r@ =~= open@ + inner@ + close@);
    r
}

fn route_string(r: &RouteModelTag, d: &String) -> (out: String)
    ensures
        out@ == route_text(route_model_of(*r, d@)),
{
    proof {
        reveal_strlit(".");
        reveal_strlit("LOCAL");
        reveal_strlit("REMOTE");
        reveal_strlit("GLOBAL");
        reveal_strlit("[");
        reveal_strlit("]");
        reveal_strlit("<<");
        reveal_strlit(">>");
    }
    let out = match r {
        RouteModelTag::This => ".".to_string(),
        RouteModelTag::Local => "LOCAL".to_string(),
        RouteModelTag::Remote => "REMOTE".to_string(),
        RouteModelTag::Global => "GLOBAL".to_string(),
        RouteModelTag::Domain => d.clone(),
        RouteModelTag::Tag => wrapped("[", d, "]"),
        RouteModelTag::Star => wrapped("<<", d, ">>"),
    };
    assert(out@ =~= route_text(route_model_of(*r, d@)));
    out
}

/// The shape of a route segment other than a variable.
#[derive(Clone, Copy, PartialEq, Eq, Structural)]
enum RouteModelTag {
    This,
    Local,
    Remote,
    Global,
    Domain,
    Tag,
    Star,
}

spec fn route_model_of(t: RouteModelTag, d: Seq<char>) -> RouteModel {
    match t {
        RouteModelTag::This => RouteModel::This,
        RouteModelTag::Local => RouteModel::Local,
        RouteModelTag::Remote => RouteModel::Remote,
        RouteModelTag::Global => RouteModel::Global,
        RouteModelTag::Domain => RouteModel::Domain(d),
        RouteModelTag::Tag => RouteModel::Tag(d),
        RouteModelTag::Star => RouteModel::Star(d),
    }
}

impl RouteSegQuery for RouteSeg {
    fn duplicate(&self) -> (r: Self) {
        self.clone()
    }

    fn is_local(&self) -> (b: bool) {
        match self {
            RouteSeg::This => true,
            _ => false,
        }
    }

    fn is_global(&self) -> (b: bool) {
        match self {
            RouteSeg::Global => true,
            _ => false,
        }
    }

    fn to_string(&self) -> (r: String) {
        let empty = String::new();
        match self {
            RouteSeg::This => route_string(&RouteModelTag::This, &empty),
            RouteSeg::Local => route_string(&RouteModelTag::Local, &empty),
            RouteSeg::Remote => route_string(&RouteModelTag::Remote, &empty),
            RouteSeg::Global => route_string(&RouteModelTag::Global, &empty),
            RouteSeg::Domain(d) => route_string(&RouteModelTag::Domain, d),
            RouteSeg::Tag(t) => route_string(&RouteModelTag::Tag, t),
            RouteSeg::Star(s) => route_string(&RouteModelTag::Star, s),
        }
    }
}

impl RouteSegQuery for RouteSegVar {
    fn duplicate(&self) -> (r: Self) {
        self.clone()
    }

    fn is_local(&self) -> (b: bool) {
        match self {
            RouteSegVar::This => true,
            _ => false,
        }
    }

    fn is_global(&self) -> (b: bool) {
        match self {
            RouteSegVar::Global => true,
            _ => false,
        }
    }

    fn to_string(&self) -> (r: String) {
        let empty = String::new();
        match self {
            RouteSegVar::This => route_string(&RouteModelTag::This, &empty),
            RouteSegVar::Local => route_string(&RouteModelTag::Local, &empty),
            RouteSegVar::Remote => route_string(&RouteModelTag::Remote, &empty),
            RouteSegVar::Global => route_string(&RouteModelTag::Global, &empty),
            RouteSegVar::Domain(d) => route_string(&RouteModelTag::Domain, d),
            RouteSegVar::Tag(t) => route_string(&RouteModelTag::Tag, t),
            RouteSegVar::Star(s) => route_string(&RouteModelTag::Star, s),
            RouteSegVar::Var(v) => var_string(&v.name),
        }
    }
}


/// A segment of a concrete point.
#[derive(Debug, PartialEq, Eq, Hash)]
pub enum PointSeg {
    Root,
    Space(String),
    Base(String),
    FilesystemRootDir,
    Dir(String),
    File(String),
    Version(Version),
}

/// A segment that may still refer to the working point (`.`) or its parent (`..`).
#[derive(Debug, PartialEq, Eq)]
pub enum PointSegCtx {
    Root,
    Space(String),
    Base(String),
    FilesystemRootDir,
    Dir(String),
    File(String),
    Version(Version),
    Working(Trace),
    Pop(Trace),
}

/// A segment that may also still be a variable.
#[derive(Debug, PartialEq, Eq)]
pub enum PointSegVar {
    Root,
    Space(String),
    Base(String),
    FilesystemRootDir,
    Dir(String),
    File(String),
    Version(Version),
    Working(Trace),
    Pop(Trace),
    Var(Variable),
}

impl View for PointSeg {
    type V = SegModel;

    open spec fn view(&self) -> SegModel {
        match self {
            PointSeg::Root => SegModel::Root,
            PointSeg::Space(t) => SegModel::Space(t@),
            PointSeg::Base(t) => SegModel::Base(t@),
            PointSeg::FilesystemRootDir => SegModel::FilesystemRootDir,
            PointSeg::Dir(t) => SegModel::Dir(t@),
            PointSeg::File(t) => SegModel::File(t@),
            PointSeg::Version(v) => SegModel::Version(v@),
        }
    }
}

impl View for PointSegCtx {
    type V = SegModel;

    open spec fn view(&self) -> SegModel {
        match self {
            PointSegCtx::Root => SegModel::Root,
            PointSegCtx::Space(t) => SegModel::Space(t@),
            PointSegCtx::Base(t) => SegModel::Base(t@),
            PointSegCtx::FilesystemRootDir => SegModel::FilesystemRootDir,
            PointSegCtx::Dir(t) => SegModel::Dir(t@),
            PointSegCtx::File(t) => SegModel::File(t@),
            PointSegCtx::Version(v) => SegModel::Version(v@),
            PointSegCtx::Working(t) => SegModel::Working(*t),
            PointSegCtx::Pop(t) => SegModel::Pop(*t),
        }
    }
}

impl View for PointSegVar {
    type V = SegModel;

    open spec fn view(&self) -> SegModel {
        match self {
            PointSegVar::Root => SegModel::Root,
            PointSegVar::Space(t) => SegModel::Space(t@),
            PointSegVar::Base(t) => SegModel::Base(t@),
            PointSegVar::FilesystemRootDir => SegModel::FilesystemRootDir,
            PointSegVar::Dir(t) => SegModel::Dir(t@),
            PointSegVar::File(t) => SegModel::File(t@),
            PointSegVar::Version(v) => SegModel::Version(v@),
            PointSegVar::Working(t) => SegModel::Working(*t),
            PointSegVar::Pop(t) => SegModel::Pop(*t),
            PointSegVar::Var(v) => SegModel::Var(v@),
        }
    }
}

impl Clone for PointSeg {
    fn clone(&self) -> (r: Self)
        ensures
            r == *self,
    {
        match self {
            PointSeg::Root => PointSeg::Root,
            PointSeg::Space(t) => PointSeg::Space(t.clone()),
            PointSeg::Base(t) => PointSeg::Base(t.clone()),
            PointSeg::FilesystemRootDir => PointSeg::FilesystemRootDir,
            PointSeg::Dir(t) => PointSeg::Dir(t.clone()),
            PointSeg::File(t) => PointSeg::File(t.clone()),
            PointSeg::Version(v) => PointSeg::Version(v.clone()),
        }
    }
}

impl Clone for PointSegCtx {
    fn clone(&self) -> (r: Self)
        ensures
            r == *self,
    {
        match self {
            PointSegCtx::Root => PointSegCtx::Root,
            PointSegCtx::Space(t) => PointSegCtx::Space(t.clone()),
            PointSegCtx::Base(t) => PointSegCtx::Base(t.clone()),
            PointSegCtx::FilesystemRootDir => PointSegCtx::FilesystemRootDir,
            PointSegCtx::Dir(t) => PointSegCtx::Dir(t.clone()),
            PointSegCtx::File(t) => PointSegCtx::File(t.clone()),
            PointSegCtx::Version(v) => PointSegCtx::Version(v.clone()),
            PointSegCtx::Working(t) => PointSegCtx::Working(t.clone()),
            PointSegCtx::Pop(t) => PointSegCtx::Pop(t.clone()),
        }
    }
}

impl Clone for PointSegVar {
    fn clone(&self) -> (r: Self)
        ensures
            r == *self,
    {
        match self {
            PointSegVar::Root => PointSegVar::Root,
            PointSegVar::Space(t) => PointSegVar::Space(t.clone()),
            PointSegVar::Base(t) => PointSegVar::Base(t.clone()),
            PointSegVar::FilesystemRootDir => PointSegVar::FilesystemRootDir,
            PointSegVar::Dir(t) => PointSegVar::Dir(t.clone()),
            PointSegVar::File(t) => PointSegVar::File(t.clone()),
            PointSegVar::Version(v) => PointSegVar::Version(v.clone()),
            PointSegVar::Working(t) => PointSegVar::Working(t.clone()),
            PointSegVar::Pop(t) => PointSegVar::Pop(t.clone()),
            PointSegVar::Var(v) => PointSegVar::Var(v.clone()),
        }
    }
}

impl PointSegment for PointSeg {}

impl PointSegment for PointSegCtx {}

impl PointSegment for PointSegVar {}

fn fixed_seg_string(k: PointSegKind) -> (r: String)
    requires
        k == PointSegKind::Root || k == PointSegKind::FilesystemRootDir || k
            == PointSegKind::Working || k == PointSegKind::Pop,
    ensures
        k == PointSegKind::Root ==> r@ == seg_text(SegModel::Root),
        k == PointSegKind::FilesystemRootDir ==> r@ == seg_text(SegModel::FilesystemRootDir),
        forall|t: Trace| k == PointSegKind::Working ==> r@ == seg_text(SegModel::Working(t)),
        forall|t: Trace| k == PointSegKind::Pop ==> r@ == seg_text(SegModel::Pop(t)),
{
    let mut r = String::new();
    match k {
        PointSegKind::FilesystemRootDir => push_char(&mut r, '/'),
        PointSegKind::Working => push_char(&mut r, '.'),
        PointSegKind::Pop => {
            push_char(&mut r, '.');
            push_char(&mut r, '.');
        },
        _ => {},
    }
    assert(k == PointSegKind::Root ==> r@ =~= seg_text(SegModel::Root));
    assert(k == PointSegKind::FilesystemRootDir ==> r@ =~= seg_text(SegModel::FilesystemRootDir));
    assert(k == PointSegKind::Working ==> r@ =~= seq!['.']);
    assert(k == PointSegKind::Pop ==> r@ =~= seq!['.', '.']);
    r
}

impl PointSegQuery for PointSeg {
    fn duplicate(&self) -> (r: Self) {
        self.clone()
    }

    fn is_filesystem_root(&self) -> (b: bool) {
        match self {
            PointSeg::FilesystemRootDir => true,
            _ => false,
        }
    }

    fn kind(&self) -> (k: PointSegKind) {
        match self {
            PointSeg::Root => PointSegKind::Root,
            PointSeg::Space(_) => PointSegKind::Space,
            PointSeg::Base(_) => PointSegKind::Base,
            PointSeg::FilesystemRootDir => PointSegKind::FilesystemRootDir,
            PointSeg::Dir(_) => PointSegKind::Dir,
            PointSeg::File(_) => PointSegKind::File,
            PointSeg::Version(_) => PointSegKind::Version,
        }
    }

    fn to_string(&self) -> (r: String) {
        match self {
            PointSeg::Root => fixed_seg_string(PointSegKind::Root),
            PointSeg::Space(t) => t.clone(),
            PointSeg::Base(t) => t.clone(),
            PointSeg::FilesystemRootDir => fixed_seg_string(PointSegKind::FilesystemRootDir),
            PointSeg::Dir(t) => t.clone(),
            PointSeg::File(t) => t.clone(),
            PointSeg::Version(v) => v.to_string(),
        }
    }
}

impl PointSegQuery for PointSegCtx {
    fn duplicate(&self) -> (r: Self) {
        self.clone()
    }

    fn is_filesystem_root(&self) -> (b: bool) {
        match self {
            PointSegCtx::FilesystemRootDir => true,
            _ => false,
        }
    }

    fn kind(&self) -> (k: PointSegKind) {
        match self {
            PointSegCtx::Root => PointSegKind::Root,
            PointSegCtx::Space(_) => PointSegKind::Space,
            PointSegCtx::Base(_) => PointSegKind::Base,
            PointSegCtx::FilesystemRootDir => PointSegKind::FilesystemRootDir,
            PointSegCtx::Dir(_) => PointSegKind::Dir,
            PointSegCtx::File(_) => PointSegKind::File,
            PointSegCtx::Version(_) => PointSegKind::Version,
            PointSegCtx::Working(_) => PointSegKind::Working,
            PointSegCtx::Pop(_) => PointSegKind::Pop,
        }
    }

    fn to_string(&self) -> (r: String) {
        match self {
            PointSegCtx::Root => fixed_seg_string(PointSegKind::Root),
            PointSegCtx::Space(t) => t.clone(),
            PointSegCtx::Base(t) => t.clone(),
            PointSegCtx::FilesystemRootDir => fixed_seg_string(PointSegKind::FilesystemRootDir),
            PointSegCtx::Dir(t) => t.clone(),
            PointSegCtx::File(t) => t.clone(),
            PointSegCtx::Version(v) => v.to_string(),
            PointSegCtx::Working(_) => fixed_seg_string(PointSegKind::Working),
            PointSegCtx::Pop(_) => fixed_seg_string(PointSegKind::Pop),
        }
    }
}

impl PointSegQuery for PointSegVar {
    fn duplicate(&self) -> (r: Self) {
        self.clone()
    }

    fn is_filesystem_root(&self) -> (b: bool) {
        match self {
            PointSegVar::FilesystemRootDir => true,
            _ => false,
        }
    }

    fn kind(&self) -> (k: PointSegKind) {
        match self {
            PointSegVar::Root => PointSegKind::Root,
            PointSegVar::Space(_) => PointSegKind::Space,
            PointSegVar::Base(_) => PointSegKind::Base,
            PointSegVar::FilesystemRootDir => PointSegKind::FilesystemRootDir,
            PointSegVar::Dir(_) => PointSegKind::Dir,
            PointSegVar::File(_) => PointSegKind::File,
            PointSegVar::Version(_) => PointSegKind::Version,
            PointSegVar::Working(_) => PointSegKind::Working,
            PointSegVar::Pop(_) => PointSegKind::Pop,
            PointSegVar::Var(_) => PointSegKind::Var,
        }
    }

    fn to_string(&self) -> (r: String) {
        match self {
            PointSegVar::Root => fixed_seg_string(PointSegKind::Root),
            PointSegVar::Space(t) => t.clone(),
            PointSegVar::Base(t) => t.clone(),
            PointSegVar::FilesystemRootDir => fixed_seg_string(PointSegKind::FilesystemRootDir),
            PointSegVar::Dir(t) => t.clone(),
            PointSegVar::File(t) => t.clone(),
            PointSegVar::Version(v) => v.to_string(),
            PointSegVar::Working(_) => fixed_seg_string(PointSegKind::Working),
            PointSegVar::Pop(_) => fixed_seg_string(PointSegKind::Pop),
            PointSegVar::Var(v) => var_string(&v.name),
        }
    }
}

impl PointSeg {
    pub fn is_file(&self) -> (b: bool)
        ensures
            b == (self@ is File),
    {
        self.kind().is_file()
    }

    pub fn is_normalized(&self) -> (b: bool)
        ensures
            b == kind_is_normalized(seg_kind(self@)),
    {
        self.kind().is_normalized()
    }

    pub fn is_version(&self) -> (b: bool)
        ensures
            b == (self@ is Version),
    {
        self.kind().is_version()
    }

    pub fn is_filesystem_seg(&self) -> (b: bool)
        ensures
            b == kind_is_filesystem_seg(seg_kind(self@)),
    {
        self.kind().is_filesystem_seg()
    }

    pub fn preceding_delim(&self, post_fileroot: bool) -> (r: &'static str)
        ensures
            r@ == delim_text(seg_kind(self@), post_fileroot),
    {
        self.kind().preceding_delim(post_fileroot)
    }
}

impl PointSegCtx {
    pub fn is_normalized(&self) -> (b: bool)
        ensures
            b == kind_is_normalized(seg_kind(self@)),
    {
        self.kind().is_normalized()
    }

    pub fn is_filesystem_seg(&self) -> (b: bool)
        ensures
            b == kind_is_filesystem_seg(seg_kind(self@)),
    {
        self.kind().is_filesystem_seg()
    }
}

impl PointSegVar {
    pub fn is_normalized(&self) -> (b: bool)
        ensures
            b == kind_is_normalized(seg_kind(self@)),
    {
        self.kind().is_normalized()
    }

    pub fn is_filesystem_seg(&self) -> (b: bool)
        ensures
            b == kind_is_filesystem_seg(seg_kind(self@)),
    {
        self.kind().is_filesystem_seg()
    }
}


/// The filesystem root appears at or before position `i`.
pub open spec fn post_fileroot(segs: Seq<SegModel>, i: int) -> bool {
    exists|j: int| 0 <= j <= i && #[trigger] segs[j] is FilesystemRootDir
}

/// The text of the first `n` segments, each after its delimiter.
pub open spec fn segs_text(segs: Seq<SegModel>, n: int) -> Seq<char>
    decreases n,
{
    if n <= 0 {
        Seq::empty()
    } else {
        segs_text(segs, n - 1) + (if n - 1 > 0 {
            delim_text(seg_kind(segs[n - 1]), post_fileroot(segs, n - 1))
        } else {
            Seq::empty()
        }) + seg_text(segs[n - 1])
    }
}

/// The text of a point, with or without its route.
pub open spec fn point_text(p: PointModel, show_route: bool) -> Seq<char> {
    if p.segments.len() == 0 {
        "ROOT"@
    } else {
        (if show_route {
            route_text(p.route) + seq![':', ':']
        } else {
            Seq::empty()
        }) + segs_text(p.segments, p.segments.len() as int)
    }
}

/// The text of a point: its route is shown unless it is the local route.
pub open spec fn point_string(p: PointModel) -> Seq<char> {
    point_text(p, !(p.route is This))
}

/// A point: a route and a sequence of segments.
#[derive(Debug, PartialEq, Eq, Hash)]
pub struct PointDef<Route, Seg> {
    pub route: Route,
    pub segments: Vec<Seg>,
}

pub type Point = PointDef<RouteSeg, PointSeg>;

pub type PointCtx = PointDef<RouteSeg, PointSegCtx>;

pub type PointVar = PointDef<RouteSegVar, PointSegVar>;

pub open spec fn view_segs<Seg: View<V = SegModel>>(segs: Seq<Seg>) -> Seq<SegModel> {
    segs.map_values(|s: Seg| s@)
}

impl<Route: View<V = RouteModel>, Seg: View<V = SegModel>> View for PointDef<Route, Seg> {
    type V = PointModel;

    open spec fn view(&self) -> PointModel {
        PointModel { route: self.route@, segments: view_segs(self.segments@) }
    }
}

impl<Route: RouteSegQuery, Seg: PointSegQuery> Clone for PointDef<Route, Seg> {
    fn clone(&self) -> (r: Self)
        ensures
            r.route == self.route,
            r.segments@ == self.segments@,
    {
        let mut segments: Vec<Seg> = Vec::new();
        let mut i: usize = 0;
        while i < self.segments.len()
            invariant
                i <= self.segments@.len(),
                segments@ == self.segments@.subrange(0, i as int),
            decreases self.segments@.len() - i,
        {
            segments.push(self.segments[i].duplicate());
            i = i + 1;
            assert(segments@ =~= self.segments@.subrange(0, i as int));
        }
        assert(segments@ =~= self.segments@);
        PointDef { route: self.route.duplicate(), segments }
    }
}

impl<Route: RouteSegQuery, Seg: PointSegQuery> PointDef<Route, Seg> {
    /// The point with its last segment removed, or `None` for a root.
    pub fn parent(&self) -> (r: Option<PointDef<Route, Seg>>)
        ensures
            self.segments@.len() == 0 ==> r is None,
            self.segments@.len() > 0 ==> (r matches Some(p) && p.route == self.route
                && p.segments@ == self.segments@.drop_last()),
    {
        if self.segments.len() == 0 {
            return None;
        }
        let mut segments: Vec<Seg> = Vec::new();
        let mut i: usize = 0;
        while i < self.segments.len() - 1
            invariant
                0 < self.segments@.len(),
                i < self.segments@.len(),
                segments@ == self.segments@.subrange(0, i as int),
            decreases self.segments@.len() - i,
        {
            segments.push(self.segments[i].duplicate());
            i = i + 1;
            assert(segments@ =~= self.segments@.subrange(0, i as int));
        }
        assert(segments@ =~= self.segments@.drop_last());
        Some(PointDef { route: self.route.duplicate(), segments })
    }

    /// The last segment, if there is one.
    pub fn last_segment(&self) -> (r: Option<Seg>)
        ensures
            self.segments@.len() == 0 ==> r is None,
            self.segments@.len() > 0 ==> r == Some(self.segments@.last()),
    {
        if self.segments.len() == 0 {
            None
        } else {
            Some(self.segments[self.segments.len() - 1].duplicate())
        }
    }

    /// A root has no segments.
    pub fn is_root(&self) -> (b: bool)
        ensures
            b == (self.segments@.len() == 0),
    {
        self.segments.len() == 0
    }

    /// The text of this point, showing its route when asked.
    pub fn to_string_impl(&self, show_route: bool) -> (r: String)
        ensures
            r@ == point_text(self@, show_route),
    {
        if self.segments.len() == 0 {
            proof {
                reveal_strlit("ROOT");
            }
            return "ROOT".to_string();
        }
        let mut rtn = String::new();
        if show_route {
            let route = self.route.to_string();
            push_str(&mut rtn, route.as_str());
            push_char(&mut rtn, ':');
            push_char(&mut rtn, ':');
        }
        let ghost prefix = rtn@;
        let mut post = false;
        let mut i: usize = 0;
        while i < self.segments.len()
            invariant
                i <= self.segments@.len(),
                rtn@ == prefix + segs_text(self@.segments, i as int),
                post == (i > 0 && post_fileroot(self@.segments, i - 1)),
                self@.segments.len() == self.segments@.len(),
                forall|k: int| 0 <= k < self.segments@.len() ==> #[trigger] self@.segments[k] == self.segments@[k]@,
            decreases self.segments@.len() - i,
        {
            let seg = &self.segments[i];
            if seg.is_filesystem_root() {
                post = true;
            }
            assert(post == post_fileroot(self@.segments, i as int)) by {
                if seg@ is FilesystemRootDir {
                    assert(self@.segments[i as int] is FilesystemRootDir);
                } else if post_fileroot(self@.segments, i as int) {
                    let j = choose|j: int| 0 <= j <= i && #[trigger] self@.segments[j] is FilesystemRootDir;
                    assert(j < i);
                }
            }
            if i > 0 {
                let d = seg.kind().preceding_delim(post);
                push_str(&mut rtn, d);
            }
            let t = seg.to_string();
            push_str(&mut rtn, t.as_str());
            i = i + 1;
            assert(rtn@ =~= prefix + segs_text(self@.segments, i as int));
        }
        rtn
    }

    /// The text of this point: the route is shown unless it is the local route.
    pub fn to_string(&self) -> (r: String)
        ensures
            r@ == point_string(self@),
    {
        let local = self.route.is_local();
        self.to_string_impl(!local)
    }
}


/// A segment that names something outright: not a variable and not a reference to the working
/// point or its parent.
pub open spec fn seg_concrete(m: SegModel) -> bool {
    !(m is Working || m is Pop || m is Var)
}

/// A point whose route and segments are all concrete.
pub open spec fn point_concrete(p: PointModel) -> bool {
    !(p.route is Var) && forall|i: int| 0 <= i < p.segments.len() ==> seg_concrete(#[trigger] p.segments[i])
}

impl RouteSeg {
    pub fn to_var(self) -> (r: RouteSegVar)
        ensures
            r@ == self@,
    {
        match self {
            RouteSeg::This => RouteSegVar::This,
            RouteSeg::Local => RouteSegVar::Local,
            RouteSeg::Remote => RouteSegVar::Remote,
            RouteSeg::Global => RouteSegVar::Global,
            RouteSeg::Domain(d) => RouteSegVar::Domain(d),
            RouteSeg::Tag(t) => RouteSegVar::Tag(t),
            RouteSeg::Star(s) => RouteSegVar::Star(s),
        }
    }
}

impl RouteSegVar {
    /// The concrete route; a variable is not allowed here.
    pub fn to_route(self) -> (r: Result<RouteSeg, MsgErr>)
        ensures
            r is Ok <==> !(self@ is Var),
            r matches Ok(x) ==> x@ == self@,
    {
        match self {
            RouteSegVar::This => Ok(RouteSeg::This),
            RouteSegVar::Local => Ok(RouteSeg::Local),
            RouteSegVar::Global => Ok(RouteSeg::Global),
            RouteSegVar::Domain(domain) => Ok(RouteSeg::Domain(domain)),
            RouteSegVar::Tag(tag) => Ok(RouteSeg::Tag(tag)),
            RouteSegVar::Star(star) => Ok(RouteSeg::Star(star)),
            RouteSegVar::Var(var) => Err(
                MsgErr::parse_error(
                    "variables not allowed in this context",
                    "variable not allowed here",
                    var.trace.range,
                ),
            ),
            RouteSegVar::Remote => Ok(RouteSeg::Remote),
        }
    }
}

impl PointSeg {
    pub fn to_ctx(self) -> (r: PointSegCtx)
        ensures
            r@ == self@,
    {
        match self {
            PointSeg::Root => PointSegCtx::Root,
            PointSeg::Space(space) => PointSegCtx::Space(space),
            PointSeg::Base(base) => PointSegCtx::Base(base),
            PointSeg::FilesystemRootDir => PointSegCtx::FilesystemRootDir,
            PointSeg::Dir(dir) => PointSegCtx::Dir(dir),
            PointSeg::File(file) => PointSegCtx::File(file),
            PointSeg::Version(version) => PointSegCtx::Version(version),
        }
    }
}

impl PointSegCtx {
    pub fn to_var(self) -> (r: PointSegVar)
        ensures
            r@ == self@,
    {
        match self {
            PointSegCtx::Root => PointSegVar::Root,
            PointSegCtx::Space(space) => PointSegVar::Space(space),
            PointSegCtx::Base(base) => PointSegVar::Base(base),
            PointSegCtx::FilesystemRootDir => PointSegVar::FilesystemRootDir,
            PointSegCtx::Dir(dir) => PointSegVar::Dir(dir),
            PointSegCtx::File(file) => PointSegVar::File(file),
            PointSegCtx::Version(version) => PointSegVar::Version(version),
            PointSegCtx::Working(trace) => PointSegVar::Working(trace),
            PointSegCtx::Pop(trace) => PointSegVar::Pop(trace),
        }
    }

    /// The concrete segment; references to the working point are not allowed here.
    pub fn to_point_seg(self) -> (r: Result<PointSeg, MsgErr>)
        ensures
            r is Ok <==> seg_concrete(self@),
            r matches Ok(x) ==> x@ == self@,
    {
        match self {
            PointSegCtx::Root => Ok(PointSeg::Root),
            PointSegCtx::Space(space) => Ok(PointSeg::Space(space)),
            PointSegCtx::Base(base) => Ok(PointSeg::Base(base)),
            PointSegCtx::FilesystemRootDir => Ok(PointSeg::FilesystemRootDir),
            PointSegCtx::Dir(dir) => Ok(PointSeg::Dir(dir)),
            PointSegCtx::File(file) => Ok(PointSeg::File(file)),
            PointSegCtx::Version(version) => Ok(PointSeg::Version(version)),
            PointSegCtx::Working(trace) => Err(
                MsgErr::parse_error(
                    "working point not available in this context",
                    "working point not available",
                    trace.range,
                ),
            ),
            PointSegCtx::Pop(trace) => Err(
                MsgErr::parse_error(
                    "point pop not available in this context",
                    "point pop not available",
                    trace.range,
                ),
            ),
        }
    }
}

impl PointSegVar {
    /// The segment without variables; variables, and references to the working point, are not
    /// allowed here.
    pub fn to_ctx(self) -> (r: Result<PointSegCtx, MsgErr>)
        ensures
            r is Ok <==> seg_concrete(self@),
            r matches Ok(x) ==> x@ == self@,
    {
        match self {
            PointSegVar::Root => Ok(PointSegCtx::Root),
            PointSegVar::Space(space) => Ok(PointSegCtx::Space(space)),
            PointSegVar::Base(base) => Ok(PointSegCtx::Base(base)),
            PointSegVar::FilesystemRootDir => Ok(PointSegCtx::FilesystemRootDir),
            PointSegVar::Dir(dir) => Ok(PointSegCtx::Dir(dir)),
            PointSegVar::File(file) => Ok(PointSegCtx::File(file)),
            PointSegVar::Version(version) => Ok(PointSegCtx::Version(version)),
            PointSegVar::Working(trace) => Err(
                MsgErr::parse_error(
                    "working point not available in this context",
                    "working point not available",
                    trace.range,
                ),
            ),
            PointSegVar::Pop(trace) => Err(
                MsgErr::parse_error(
                    "point pop not available in this context",
                    "point pop not available",
                    trace.range,
                ),
            ),
            PointSegVar::Var(var) => Err(
                MsgErr::parse_error(
                    "variable substitution not available in this context",
                    "var subst not available",
                    var.trace.range,
                ),
            ),
        }
    }
}

impl PointVar {
    /// The point without variables or context references; any of them is an error.
    pub fn collapse(self) -> (r: Result<PointCtx, MsgErr>)
        ensures
            r is Ok <==> point_concrete(self@),
            r matches Ok(p) ==> p@ == self@,
    {
        let ghost model = self@;
        let PointDef { route, segments } = self;
        let route = route.to_route()?;
        let mut out: Vec<PointSegCtx> = Vec::new();
        let mut i: usize = 0;
        while i < segments.len()
            invariant
                i <= segments@.len(),
                model == self@,
                model.segments == view_segs(segments@),
                view_segs(out@) == model.segments.subrange(0, i as int),
                forall|j: int| 0 <= j < i ==> seg_concrete(#[trigger] model.segments[j]),
            decreases segments@.len() - i,
        {
            let seg = segments[i].clone();
            assert(seg@ == model.segments[i as int]);
            match seg.to_ctx() {
                Ok(c) => {
                    let ghost before = view_segs(out@);
                    out.push(c);
                    assert(view_segs(out@) =~= before.push(c@));
                    assert(model.segments.subrange(0, i + 1) =~= model.segments.subrange(0, i as int).push(model.segments[i as int]));
                },
                Err(e) => {
                    assert(model.segments.len() == segments@.len());
                    assert(!seg_concrete(model.segments[i as int]));
                    assert(!point_concrete(model));
                    return Err(e);
                },
            }
            i = i + 1;
        }
        assert(view_segs(out@) =~= model.segments);
        Ok(PointDef { route, segments: out })
    }

    pub fn to_point_ctx(self) -> (r: Result<PointCtx, MsgErr>)
        ensures
            r is Ok <==> point_concrete(self@),
            r matches Ok(p) ==> p@ == self@,
    {
        self.collapse()
    }

    /// Whether the last segment is a directory (a root counts as none).
    pub fn is_dir(&self) -> (b: bool)
        ensures
            b == (self.segments@.len() > 0 && self@.segments.last() is Dir),
    {
        if self.segments.len() == 0 {
            false
        } else {
            self.segments[self.segments.len() - 1].kind().is_dir()
        }
    }
}

impl PointCtx {
    /// The concrete point; references to the working point are an error.
    pub fn collapse(self) -> (r: Result<Point, MsgErr>)
        ensures
            r is Ok <==> point_concrete(self@),
            r matches Ok(p) ==> p@ == self@,
    {
        let ghost model = self@;
        let PointDef { route, segments } = self;
        let mut out: Vec<PointSeg> = Vec::new();
        let mut i: usize = 0;
        while i < segments.len()
            invariant
                i <= segments@.len(),
                model == self@,
                model.segments == view_segs(segments@),
                view_segs(out@) == model.segments.subrange(0, i as int),
                forall|j: int| 0 <= j < i ==> seg_concrete(#[trigger] model.segments[j]),
            decreases segments@.len() - i,
        {
            let seg = segments[i].clone();
            assert(seg@ == model.segments[i as int]);
            match seg.to_point_seg() {
                Ok(c) => {
                    let ghost before = view_segs(out@);
                    out.push(c);
                    assert(view_segs(out@) =~= before.push(c@));
                    assert(model.segments.subrange(0, i + 1) =~= model.segments.subrange(0, i as int).push(model.segments[i as int]));
                },
                Err(e) => {
                    assert(model.segments.len() == segments@.len());
                    assert(!seg_concrete(model.segments[i as int]));
                    assert(!point_concrete(model));
                    return Err(e);
                },
            }
            i = i + 1;
        }
        assert(view_segs(out@) =~= model.segments);
        Ok(PointDef { route, segments: out })
    }

    pub fn to_point(self) -> (r: Result<Point, MsgErr>)
        ensures
            r is Ok <==> point_concrete(self@),
            r matches Ok(p) ==> p@ == self@,
    {
        self.collapse()
    }

    /// Whether the last segment is a directory (a root counts as none).
    pub fn is_dir(&self) -> (b: bool)
        ensures
            b == (self.segments@.len() > 0 && self@.segments.last() is Dir),
    {
        if self.segments.len() == 0 {
            false
        } else {
            self.segments[self.segments.len() - 1].kind().is_dir()
        }
    }
}

/// The delimiter written before a segment: none, `:` in the mesh, `/` in a filesystem.
#[derive(Debug, Clone, Copy, PartialEq, Eq, Hash, Structural)]
pub enum PointSegDelim {
    Empty,
    Mesh,
    File,
}

/// The text of a delimiter.
pub open spec fn seg_delim_text(d: PointSegDelim) -> Seq<char> {
    match d {
        PointSegDelim::Empty => Seq::empty(),
        PointSegDelim::Mesh => seq![':'],
        PointSegDelim::File => seq!['/'],
    }
}

impl PointSegDelim {
    pub fn to_string(&self) -> (r: String)
        ensures
            r@ == seg_delim_text(*self),
    {
        let mut r = String::new();
        match self {
            PointSegDelim::Empty => {},
            PointSegDelim::Mesh => push_char(&mut r, ':'),
            PointSegDelim::File => push_char(&mut r, '/'),
        }
        assert(r@ =~= seg_delim_text(*self));
        r
    }
}

/// A segment with the delimiter written before it.
pub struct PointSegPairDef<Seg> {
    pub delim: PointSegDelim,
    pub seg: Seg,
}

pub type PointSegPair = PointSegPairDef<PointSeg>;

impl<Seg> PointSegPairDef<Seg> {
    pub fn new(delim: PointSegDelim, seg: Seg) -> (r: Self)
        ensures
            r.delim == delim,
            r.seg == seg,
    {
        Self { delim, seg }
    }
}

impl<Seg: PointSegQuery> PointSegPairDef<Seg> {
    /// The delimiter's text followed by the segment's.
    pub fn to_string(&self) -> (r: String)
        ensures
            r@ == seg_delim_text(self.delim) + seg_text(self.seg@),
    {
        let mut r = self.delim.to_string();
        let t = self.seg.to_string();
        push_str(&mut r, t.as_str());
        r
    }
}

} // verus!
