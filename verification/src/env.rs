//! Scopes of variables and files, the working point they resolve against, and resolvers.
use vstd::prelude::*;
use crate::error::MsgErr;
use crate::matching::{regex_accepts, regex_captures_found, regex_compiles, regex_finds, regex_group, regex_named_group};
use crate::point::{Point, PointDef, PointModel, RouteModel, RouteSeg, SegModel};
use crate::textmap::TextMap;

verus! {

/// Why a variable or a file could not be resolved.
#[derive(Debug, Clone, Copy, PartialEq, Eq, Structural)]
pub enum ResolverErr {
    NotAvailable,
    NotFound,
}

/// A context reference: the working point (`.`) or the point from the root (`...`).
#[derive(Debug, Clone, Copy, PartialEq, Eq, Structural)]
pub enum Ctx {
    WorkingPoint,
    PointFromRoot,
}

impl Ctx {
    pub fn to_string(&self) -> (r: String)
        ensures
            r@ == (match self {
                Ctx::WorkingPoint => "."@,
                Ctx::PointFromRoot => "..."@,
            }),
    {
        match self {
            Ctx::WorkingPoint => ".".to_string(),
            Ctx::PointFromRoot => "...".to_string(),
        }
    }
}

/// A named file and its bytes.
pub struct File {
    pub name: String,
    pub content: Vec<u8>,
}

impl File {
    pub fn new(name: &str, content: Vec<u8>) -> (r: Self)
        ensures
            r.name@ == name@,
            r.content@ == content@,
    {
        File { name: name.to_string(), content }
    }
}

/// Files by name.
pub struct FileResolver {
    pub files: TextMap<Vec<u8>>,
}

impl FileResolver {
    pub fn new() -> (r: Self)
        ensures
            r.files@ == Map::<Seq<char>, Seq<u8>>::empty(),
    {
        FileResolver { files: TextMap::new() }
    }

    /// The file called `name`.
    pub fn file(&self, name: &str) -> (r: Result<File, ResolverErr>)
        ensures
            match r {
                Ok(f) => self.files@.contains_key(name@) && f.name@ == name@ && f.content@
                    == self.files@[name@],
                Err(e) => !self.files@.contains_key(name@) && e == ResolverErr::NotFound,
            },
    {
        match self.files.get(name) {
            Some(content) => {
                let c = crate::textmap::Duplicate::duplicate(content);
                Ok(File::new(name, c))
            },
            None => Err(ResolverErr::NotFound),
        }
    }
}

/// Something that gives variables their values.
pub trait VarResolver {
    /// The value of `var`, if this resolver has one.
    spec fn lookup(&self, var: Seq<char>) -> Option<Seq<char>>;

    fn val(&self, var: &str) -> (r: Result<String, ResolverErr>)
        ensures
            match self.lookup(var@) {
                Some(v) => r matches Ok(x) && x@ == v,
                None => r matches Err(e) && e == ResolverErr::NotFound,
            },
    ;
}

/// A resolver that knows no variable.
pub struct NoResolver;

impl NoResolver {
    pub fn new() -> (r: Self) {
        NoResolver
    }
}

impl VarResolver for NoResolver {
    open spec fn lookup(&self, var: Seq<char>) -> Option<Seq<char>> {
        None
    }

    fn val(&self, var: &str) -> (r: Result<String, ResolverErr>) {
        Err(ResolverErr::NotFound)
    }
}

/// A resolver that looks variables up in a map.
pub struct MapResolver {
    pub map: TextMap<String>,
}

impl MapResolver {
    pub fn new() -> (r: Self)
        ensures
            r.map@ == Map::<Seq<char>, Seq<char>>::empty(),
    {
        MapResolver { map: TextMap::new() }
    }

    pub fn insert(&mut self, key: &str, value: &str)
        ensures
            final(self).map@ == old(self).map@.insert(key@, value@),
    {
        self.map.insert(key.to_string(), value.to_string());
    }
}

impl VarResolver for MapResolver {
    open spec fn lookup(&self, var: Seq<char>) -> Option<Seq<char>> {
        if self.map@.contains_key(var) {
            Some(self.map@[var])
        } else {
            None
        }
    }

    fn val(&self, var: &str) -> (r: Result<String, ResolverErr>) {
        match self.map.get(var) {
            Some(v) => Ok(v.clone()),
            None => Err(ResolverErr::NotFound),
        }
    }
}

/// A resolver whose variables are the named groups of the first match of a regex in a text.
pub struct RegexCapturesResolver {
    pattern: String,
    text: String,
}

impl View for RegexCapturesResolver {
    /// The pattern of the regex and the text.
    type V = (Seq<char>, Seq<char>);

    closed spec fn view(&self) -> (Seq<char>, Seq<char>) {
        (self.pattern@, self.text@)
    }
}

impl RegexCapturesResolver {
    #[verifier::type_invariant]
    spec fn well_formed(&self) -> bool {
        regex_accepts(self.pattern@) && regex_finds(self.pattern@, self.text@)
    }

    /// The resolver for the regex of `pattern` on `text`; refused where the pattern does not
    /// compile, and where the regex finds no match in the text.
    pub fn new(pattern: String, text: String) -> (r: Result<Self, MsgErr>)
        ensures
            r is Ok <==> regex_accepts(pattern@) && regex_finds(pattern@, text@),
            r matches Ok(v) ==> v@ == (pattern@, text@),
            !regex_accepts(pattern@) ==> (r matches Err(e) && e.is_status(500, "invalid regex"@)),
            regex_accepts(pattern@) && !regex_finds(pattern@, text@) ==> (r matches Err(e)
                && e.is_status(500, "no regex captures"@)),
    {
        if !regex_compiles(pattern.as_str()) {
            return Err(MsgErr::from_500("invalid regex"));
        }
        if !regex_captures_found(pattern.as_str(), text.as_str()) {
            return Err(MsgErr::from_500("no regex captures"));
        }
        Ok(RegexCapturesResolver { pattern, text })
    }

    /// The text; a resolver is made only where its regex compiles and finds a match in it.
    pub fn text(&self) -> (r: &String)
        ensures
            r@ == self@.1,
            regex_accepts(self@.0),
            regex_finds(self@.0, self@.1),
    {
        proof {
            use_type_invariant(self);
        }
        &self.text
    }

    pub fn pattern(&self) -> (r: &String)
        ensures
            r@ == self@.0,
    {
        &self.pattern
    }
}

impl VarResolver for RegexCapturesResolver {
    open spec fn lookup(&self, var: Seq<char>) -> Option<Seq<char>> {
        regex_group(self@.0, self@.1, var)
    }

    fn val(&self, var: &str) -> (r: Result<String, ResolverErr>) {
        proof {
            use_type_invariant(self);
        }
        match regex_named_group(self.pattern.as_str(), self.text.as_str(), var) {
            Some(v) => Ok(v),
            None => Err(ResolverErr::NotFound),
        }
    }
}

/// A scope: the working point, its variables and files, and the scope it was pushed from.
pub struct Env {
    pub parent: Option<Box<Env>>,
    pub point: Point,
    pub vars: TextMap<String>,
    pub file_resolver: FileResolver,
}

impl Env {
    /// The scope this one was pushed from.
    pub open spec fn parent_scope(&self) -> Option<Env> {
        match &self.parent {
            Some(p) => Some(**p),
            None => None,
        }
    }

    /// The value of a variable as this scope sees it: its own, else its parent's.
    pub open spec fn var(&self, k: Seq<char>) -> Option<Seq<char>>
        decreases self,
    {
        if self.vars@.contains_key(k) {
            Some(self.vars@[k])
        } else {
            match &self.parent {
                Some(p) => p.var(k),
                None => None,
            }
        }
    }

    /// The content of a file as this scope sees it: its own, else its parent's.
    pub open spec fn file_of(&self, k: Seq<char>) -> Option<Seq<u8>>
        decreases self,
    {
        if self.file_resolver.files@.contains_key(k) {
            Some(self.file_resolver.files@[k])
        } else {
            match &self.parent {
                Some(p) => p.file_of(k),
                None => None,
            }
        }
    }

    /// A scope with no parent, no variables and no files.
    pub open spec fn is_fresh(&self) -> bool {
        &&& self.parent_scope() is None
        &&& self.vars@ == Map::<Seq<char>, Seq<char>>::empty()
        &&& self.file_resolver.files@ == Map::<Seq<char>, Seq<u8>>::empty()
    }

    pub fn new(working: Point) -> (r: Self)
        ensures
            r.point == working,
            r.is_fresh(),
    {
        Env { parent: None, point: working, vars: TextMap::new(), file_resolver: FileResolver::new() }
    }

    /// A scope whose working point is the root.
    pub fn no_point() -> (r: Self)
        ensures
            r.point@ == (PointModel { route: RouteModel::This, segments: Seq::empty() }),
            r.is_fresh(),
    {
        let segments: Vec<crate::point::PointSeg> = Vec::new();
        let root = PointDef { route: RouteSeg::This, segments };
        assert(root@.segments =~= Seq::<SegModel>::empty());
        Env::new(root)
    }

    /// A new scope inside this one, with the same working point and no variables of its own.
    pub fn push(self) -> (r: Self)
        ensures
            r.parent_scope() == Some(self),
            r.point@ == self.point@,
            r.vars@ == Map::<Seq<char>, Seq<char>>::empty(),
            r.file_resolver.files@ == Map::<Seq<char>, Seq<u8>>::empty(),
    {
        Env {
            point: self.point.clone(),
            parent: Some(Box::new(self)),
            vars: TextMap::new(),
            file_resolver: FileResolver::new(),
        }
    }

    /// The scope this one was pushed from.
    pub fn pop(self) -> (r: Result<Env, MsgErr>)
        ensures
            match self.parent_scope() {
                Some(p) => r matches Ok(e) && e == p,
                None => r is Err,
            },
    {
        match self.parent {
            Some(p) => Ok(*p),
            None => Err(MsgErr::from_500("expected parent scopedVars")),
        }
    }

    /// The working point.
    pub fn point_or(&self) -> (r: Result<Point, MsgErr>)
        ensures
            r matches Ok(p) && p@ == self.point@,
    {
        Ok(self.point.clone())
    }

    /// The value of a variable: this scope's own, else its parent's.
    pub fn val(&self, var: &str) -> (r: Result<String, ResolverErr>)
        ensures
            match self.var(var@) {
                Some(v) => r matches Ok(x) && x@ == v,
                None => r matches Err(e) && e == ResolverErr::NotFound,
            },
        decreases self,
    {
        match self.vars.get(var) {
            Some(v) => Ok(v.clone()),
            None => match &self.parent {
                Some(p) => p.val(var),
                None => Err(ResolverErr::NotFound),
            },
        }
    }

    pub fn set_working(&mut self, point: Point)
        ensures
            final(self).point == point,
            final(self).parent_scope() == old(self).parent_scope(),
            final(self).vars@ == old(self).vars@,
            final(self).file_resolver.files@ == old(self).file_resolver.files@,
    {
        self.point = point;
    }

    pub fn working(&self) -> (r: &Point)
        ensures
            *r == self.point,
    {
        &self.point
    }

    /// Sets a variable of this scope to a text.
    pub fn set_var_str(&mut self, key: &str, value: &str)
        ensures
            final(self).vars@ == old(self).vars@.insert(key@, value@),
            final(self).point == old(self).point,
            final(self).parent_scope() == old(self).parent_scope(),
            final(self).file_resolver.files@ == old(self).file_resolver.files@,
    {
        self.vars.insert(key.to_string(), value.to_string());
    }

    /// Sets a variable of this scope.
    pub fn set_var(&mut self, key: &str, value: String)
        ensures
            final(self).vars@ == old(self).vars@.insert(key@, value@),
            final(self).point == old(self).point,
            final(self).parent_scope() == old(self).parent_scope(),
            final(self).file_resolver.files@ == old(self).file_resolver.files@,
    {
        self.vars.insert(key.to_string(), value);
    }

    /// A file: this scope's own, else its parent's.
    pub fn file(&self, name: &str) -> (r: Result<File, ResolverErr>)
        ensures
            match self.file_of(name@) {
                Some(c) => r matches Ok(f) && f.name@ == name@ && f.content@ == c,
                None => r matches Err(e) && e == ResolverErr::NotFound,
            },
        decreases self,
    {
        match self.file_resolver.file(name) {
            Ok(f) => Ok(f),
            Err(_) => match &self.parent {
                Some(p) => p.file(name),
                None => Err(ResolverErr::NotFound),
            },
        }
    }

    pub fn set_file(&mut self, name: &str, content: Vec<u8>)
        ensures
            final(self).file_resolver.files@ == old(self).file_resolver.files@.insert(
                name@,
                content@,
            ),
            final(self).point == old(self).point,
            final(self).parent_scope() == old(self).parent_scope(),
            final(self).vars@ == old(self).vars@,
    {
        self.file_resolver.files.insert(name.to_string(), content);
    }

    pub fn default() -> (r: Self)
        ensures
            r.point@ == (PointModel { route: RouteModel::This, segments: Seq::empty() }),
            r.is_fresh(),
    {
        Env::no_point()
    }
}

impl VarResolver for Env {
    open spec fn lookup(&self, var: Seq<char>) -> Option<Seq<char>> {
        self.var(var)
    }

    fn val(&self, var: &str) -> (r: Result<String, ResolverErr>) {
        Env::val(self, var)
    }
}

/// A fresh scope has no variables.
pub proof fn law_fresh_scope_is_empty(e: Env, k: Seq<char>)
    requires
        e.is_fresh(),
    ensures
        e.var(k) is None,
        e.file_of(k) is None,
{
}

/// A scope pushed onto `e` sees every variable and file of `e`, and popping it gives `e` back.
pub proof fn law_push_then_pop(e: Env, pushed: Env, k: Seq<char>)
    requires
        pushed.parent_scope() == Some(e),
        pushed.vars@ == Map::<Seq<char>, Seq<char>>::empty(),
        pushed.file_resolver.files@ == Map::<Seq<char>, Seq<u8>>::empty(),
    ensures
        pushed.var(k) == e.var(k),
        pushed.file_of(k) == e.file_of(k),
        pushed.parent_scope() matches Some(p) && p == e,
{
}

/// After a variable is set, reading it gives the value written, and every other variable reads
/// as before.
pub proof fn law_read_after_write(
    before: Env,
    after: Env,
    k: Seq<char>,
    v: Seq<char>,
    other: Seq<char>,
)
    requires
        after.vars@ == before.vars@.insert(k, v),
        after.parent_scope() == before.parent_scope(),
    ensures
        after.var(k) == Some(v),
        other != k ==> after.var(other) == before.var(other),
{
}

/// After a file is set, reading it gives the content written, and every other file reads as
/// before.
pub proof fn law_file_after_write(
    before: Env,
    after: Env,
    k: Seq<char>,
    c: Seq<u8>,
    other: Seq<char>,
)
    requires
        after.file_resolver.files@ == before.file_resolver.files@.insert(k, c),
        after.parent_scope() == before.parent_scope(),
    ensures
        after.file_of(k) == Some(c),
        other != k ==> after.file_of(other) == before.file_of(other),
{
}

} // verus!
