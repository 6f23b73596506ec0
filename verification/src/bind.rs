//! The grammar of bind documents' selectors: the root scope selector with its version, route
//! selectors, scope selectors with their stacked names, and scope filters.
use vstd::prelude::*;
use crate::case::{CamelCase, SkewerCase};
use crate::errreport::{
    build_report, byte_len, context_error, context_error_from, is_context_error,
    is_context_error_from, is_err_report, run_to, run_to_exec,
};
use crate::kindparse::{camel_end, camel_end_exec, skewer_end, skewer_end_exec};
use crate::layer::Topic;
use crate::matching::{
    regex_accepts, regex_captures_found, regex_compiles, regex_error_text, regex_finds,
    regex_refusal,
};
use crate::model::{ScopeFilterDef, ScopeFilters, ScopeFiltersDef};
use crate::parse::{Outcome, Step};
use crate::port::{topic_model, TopicModel};
use crate::util::ValuePattern;
use crate::error::MsgErr;
use crate::model::{opt_string_view, LexScopeSelector, NestedBlockKind, RootScopeSelector, Spanned};
use crate::block::{lemma_strict_bounds, strict_block_at, strict_block_end};
use crate::parse::{semver_parse, version_end, version_end_exec};
use crate::point::{Version, VersionModel};
use crate::text::{
    alpha, char_at, chars_of, has_at, is_alpha, is_at, is_multispace, lemma_run_end, multispace,
    run_end, scan, starts_at, string_of, CharClass,
};
use crate::layer::view_skewers;

verus! {

/// How reading a selector ended: what was read and where reading stopped, or the parse
/// context and position of the failure.
pub enum Reading<T> {
    Read(T, int),
    Failed(Seq<char>, int),
}

/// A root scope selector at the start of `s`: optional white space, a name (a letter, then
/// letters and digits) and `(version=` a version `)`.
pub open spec fn root_scope_at(s: Seq<char>) -> Reading<(Seq<char>, VersionModel, Seq<char>)> {
    let w = run_end(s, 0, CharClass::Space);
    let n = run_end(s, w, CharClass::Alnum);
    if !(w < s.len() && is_alpha(s[w])) {
        Reading::Failed("root-scope-selector-name"@, w)
    } else if !starts_at(s, n, "(version="@) {
        Reading::Failed("scope-selector-version"@, n)
    } else {
        let v0 = n + 9;
        match version_end(s, v0) {
            None => Reading::Failed("scope-selector-version"@, n),
            Some(ve) => match semver_parse(s.subrange(v0, ve)) {
                None => Reading::Failed("scope-selector-version"@, n),
                Some(v) => if char_at(s, ve, ')') {
                    Reading::Read((s.subrange(w, n), v, s.subrange(v0, ve)), ve + 1)
                } else {
                    Reading::Failed("scope-selector-version-closing-tag"@, ve)
                },
            },
        }
    }
}

/// Reads the root scope selector at the start of `input` (whose characters are `cs`): where
/// its name starts and ends, where its version text ends, and the version; errors are reported
/// against `source`.
pub(crate) fn root_scope_exec(input: &str, cs: &Vec<char>, source: &str) -> (r: Result<(usize, usize, usize, Version), MsgErr>)
    requires
        cs@ == input@,
    ensures
        match root_scope_at(input@) {
            Reading::Read((name, v, vt), e) => r matches Ok((w, n, ve, ver)) && w == run_end(
                input@,
                0,
                CharClass::Space,
            ) && n == w + name.len() && name == input@.subrange(w as int, n as int) && n + 9 <= ve
                < input@.len() && vt == input@.subrange(n + 9, ve as int) && e == ve + 1 && ver@
                == v,
            Reading::Failed(c, p) => r matches Err(x) && is_context_error_from(
                x,
                source@,
                input@,
                c,
                p,
            ),
        },
{
    proof {
        reveal_strlit("(version=");
    }
    let w = scan(cs, 0, CharClass::Space);
    let n = scan(cs, w, CharClass::Alnum);
    if !(w < cs.len() && alpha(cs[w])) {
        return Err(context_error_from(input, cs, w, "root-scope-selector-name", source));
    }
    if !has_at(cs, n, "(version=") {
        return Err(context_error_from(input, cs, n, "scope-selector-version", source));
    }
    let v0 = n + 9;
    let ve = match version_end_exec(cs, v0) {
        Some(ve) => ve,
        None => {
            return Err(context_error_from(input, cs, n, "scope-selector-version", source));
        },
    };
    let vt = string_of(cs, v0, ve);
    let v = match Version::from_str(vt.as_str()) {
        Ok(v) => v,
        Err(_) => {
            return Err(context_error_from(input, cs, n, "scope-selector-version", source));
        },
    };
    if !is_at(cs, ve, ')') {
        return Err(context_error_from(input, cs, ve, "scope-selector-version-closing-tag", source));
    }
    proof {
        lemma_run_end(input@, 0, CharClass::Space);
        lemma_run_end(input@, w as int, CharClass::Alnum);
    }
    Ok((w, n, ve, v))
}

/// The root scope selector at the start of `input`, with the text after it: its name, and its
/// version with the text it was read from. Where it does not read, the error is the report of
/// the parse context that failed, at the place it failed.
pub fn root_scope_selector(input: &str) -> (r: Result<
    (String, RootScopeSelector<String, Spanned<String, Version>>),
    MsgErr,
>)
    ensures
        match root_scope_at(input@) {
            Reading::Read((name, v, vt), e) => r matches Ok((rest, sel)) && rest@
                == input@.subrange(e, input@.len() as int) && sel.name@ == name
                && sel.version.element@ == v && sel.version.span@ == vt,
            Reading::Failed(c, p) => r matches Err(x) && is_context_error(x, input@, c, p),
        },
{
    let cs = chars_of(input);
    match root_scope_exec(input, &cs, input) {
        Err(x) => Err(x),
        Ok((w, n, ve, v)) => {
            let vt = string_of(&cs, n + 9, ve);
            let name = string_of(&cs, w, n);
            let rest = string_of(&cs, ve + 1, cs.len());
            Ok((rest, RootScopeSelector::new(name, Spanned::new(v, vt))))
        },
    }
}


/// The kinds of method a wave can carry.
#[derive(Debug, Clone, Copy, PartialEq, Eq, Structural)]
pub enum MethodKind {
    Cmd,
    Msg,
    Http,
    Sys,
}

/// A pattern over methods: a kind, and a pattern over the names of that kind's methods.
#[derive(Debug, PartialEq, Eq)]
pub enum MethodPatternDef<N> {
    Sys(ValuePattern<N>),
    Msg(ValuePattern<N>),
    Http(ValuePattern<N>),
}

pub type MethodPattern = MethodPatternDef<CamelCase>;

/// A pattern over HTTP methods, by their camel case names (`Get`, `Post`, ...): any, none, or
/// exactly one.
#[derive(Debug, PartialEq, Eq)]
pub enum HttpMethodPattern {
    Any,
    Nothing,
    Pattern(CamelCase),
}

impl HttpMethodPattern {
    /// Matches any method, no method, or the one it names.
    pub fn is_match(&self, x: &CamelCase) -> (r: Result<(), ()>)
        ensures
            r is Ok <==> match self {
                HttpMethodPattern::Any => true,
                HttpMethodPattern::Nothing => false,
                HttpMethodPattern::Pattern(m) => m@ == x@,
            },
    {
        match self {
            HttpMethodPattern::Any => Ok(()),
            HttpMethodPattern::Pattern(m) => if crate::text::str_eq(m.as_str(), x.as_str()) {
                Ok(())
            } else {
                Err(())
            },
            HttpMethodPattern::Nothing => Err(()),
        }
    }

    /// As `is_match`, where a method is given; a pattern of one method matches no absent one.
    pub fn is_match_opt(&self, x: Option<&CamelCase>) -> (r: Result<(), ()>)
        ensures
            r is Ok <==> match self {
                HttpMethodPattern::Any => true,
                HttpMethodPattern::Nothing => false,
                HttpMethodPattern::Pattern(m) => x matches Some(y) && m@ == y@,
            },
    {
        match self {
            HttpMethodPattern::Any => Ok(()),
            HttpMethodPattern::Pattern(_) => match x {
                None => Err(()),
                Some(x) => self.is_match(x),
            },
            HttpMethodPattern::Nothing => Err(()),
        }
    }

    /// `*` for any, `!` for none, else the method's name.
    pub fn to_string(&self) -> (r: String)
        ensures
            r@ == match self {
                HttpMethodPattern::Any => "*"@,
                HttpMethodPattern::Nothing => "!"@,
                HttpMethodPattern::Pattern(m) => m@,
            },
    {
        match self {
            HttpMethodPattern::Any => "*".to_string(),
            HttpMethodPattern::Nothing => "!".to_string(),
            HttpMethodPattern::Pattern(m) => m.to_string(),
        }
    }
}

/// A method a wave carries: its kind and its name.
pub struct Method {
    pub kind: MethodKind,
    pub name: String,
}

/// A pattern over names, by their text.
pub open spec fn name_pattern_view(p: ValuePattern<CamelCase>) -> ValuePattern<Seq<char>> {
    match p {
        ValuePattern::Any => ValuePattern::Any,
        ValuePattern::Nothing => ValuePattern::Nothing,
        ValuePattern::Pattern(c) => ValuePattern::Pattern(c@),
    }
}

/// A method pattern, by the texts of its names.
pub open spec fn method_pattern_view(p: MethodPattern) -> MethodPatternDef<Seq<char>> {
    match p {
        MethodPatternDef::Sys(n) => MethodPatternDef::Sys(name_pattern_view(n)),
        MethodPatternDef::Msg(n) => MethodPatternDef::Msg(name_pattern_view(n)),
        MethodPatternDef::Http(n) => MethodPatternDef::Http(name_pattern_view(n)),
    }
}

/// A pattern over topics, by their abstract values.
pub open spec fn topic_pattern_view(p: ValuePattern<Topic>) -> ValuePattern<TopicModel> {
    match p {
        ValuePattern::Any => ValuePattern::Any,
        ValuePattern::Nothing => ValuePattern::Nothing,
        ValuePattern::Pattern(t) => ValuePattern::Pattern(topic_model(t)),
    }
}

/// Whether a name pattern accepts a name.
pub open spec fn name_accepts(p: ValuePattern<Seq<char>>, name: Seq<char>) -> bool {
    match p {
        ValuePattern::Any => true,
        ValuePattern::Nothing => false,
        ValuePattern::Pattern(n) => n == name,
    }
}

/// Whether a method pattern accepts a method of kind `kind` named `name`: the kinds agree and
/// the name pattern accepts the name. A pattern of any method accepts every method.
pub open spec fn method_accepts(
    p: ValuePattern<MethodPatternDef<Seq<char>>>,
    kind: MethodKind,
    name: Seq<char>,
) -> bool {
    match p {
        ValuePattern::Any => true,
        ValuePattern::Nothing => false,
        ValuePattern::Pattern(m) => match m {
            MethodPatternDef::Sys(n) => kind == MethodKind::Sys && name_accepts(n, name),
            MethodPatternDef::Msg(n) => kind == MethodKind::Msg && name_accepts(n, name),
            MethodPatternDef::Http(n) => kind == MethodKind::Http && name_accepts(n, name),
        },
    }
}

/// A method pattern of a kind accepts only methods of that kind, and, where it names a method,
/// only that name: an `Http<Get>` pattern accepts exactly the HTTP method `Get`.
pub proof fn law_method_pattern_keeps_its_kind(
    n: ValuePattern<Seq<char>>,
    kind: MethodKind,
    name: Seq<char>,
)
    ensures
        method_accepts(ValuePattern::Pattern(MethodPatternDef::Http(n)), kind, name) ==> kind
            == MethodKind::Http,
        method_accepts(ValuePattern::Pattern(MethodPatternDef::Msg(n)), kind, name) ==> kind
            == MethodKind::Msg,
        method_accepts(ValuePattern::Pattern(MethodPatternDef::Sys(n)), kind, name) ==> kind
            == MethodKind::Sys,
        n matches ValuePattern::Pattern(x) ==> (method_accepts(
            ValuePattern::Pattern(MethodPatternDef::Http(n)),
            kind,
            name,
        ) <==> kind == MethodKind::Http && name == x),
        n is Any ==> (method_accepts(ValuePattern::Pattern(MethodPatternDef::Http(n)), kind, name)
            <==> kind == MethodKind::Http),
        !method_accepts(ValuePattern::Pattern(MethodPatternDef::Http(ValuePattern::Nothing)), kind, name),
        method_accepts(ValuePattern::Any, kind, name),
{
}

/// The abstract value of a route selector: its topic pattern, if any, its method pattern, its
/// path regex, and its filters (each a name and its argument text, if any).
pub struct RouteSelectorModel {
    pub topic: Option<ValuePattern<TopicModel>>,
    pub method: ValuePattern<MethodPatternDef<Seq<char>>>,
    pub path: Seq<char>,
    pub filters: Seq<(Seq<char>, Option<Seq<char>>)>,
}

/// Selects directed waves by topic, method and path, with filters.
pub struct RouteSelector {
    topic: Option<ValuePattern<Topic>>,
    method: ValuePattern<MethodPattern>,
    path: String,
    filters: ScopeFilters,
}

/// Filters by their texts.
pub open spec fn filters_view(f: Seq<ScopeFilterDef<String>>) -> Seq<(Seq<char>, Option<Seq<char>>)> {
    f.map_values(
        |x: ScopeFilterDef<String>|
            (
                x.name@,
                match x.args {
                    Some(a) => Some(a@),
                    None => None,
                },
            ),
    )
}

/// The abstract value of a route selector with these parts.
pub open spec fn selector_model(
    topic: Option<ValuePattern<Topic>>,
    method: ValuePattern<MethodPattern>,
    path: String,
    filters: ScopeFilters,
) -> RouteSelectorModel {
    RouteSelectorModel {
        topic: match topic {
            Some(t) => Some(topic_pattern_view(t)),
            None => None,
        },
        method: method_patterns_view(method),
        path: path@,
        filters: filters_view(filters.filters@),
    }
}

/// A pattern over method patterns, by their names' texts.
pub open spec fn method_patterns_view(m: ValuePattern<MethodPattern>) -> ValuePattern<
    MethodPatternDef<Seq<char>>,
> {
    match m {
        ValuePattern::Any => ValuePattern::Any,
        ValuePattern::Nothing => ValuePattern::Nothing,
        ValuePattern::Pattern(p) => ValuePattern::Pattern(method_pattern_view(p)),
    }
}

impl View for RouteSelector {
    type V = RouteSelectorModel;

    closed spec fn view(&self) -> RouteSelectorModel {
        selector_model(self.topic, self.method, self.path, self.filters)
    }
}

impl RouteSelector {
    #[verifier::type_invariant]
    spec fn well_formed(&self) -> bool {
        regex_accepts(self.path@)
    }

    /// Whether a wave with this method, to this path, is selected: the method pattern accepts
    /// the method and the path regex finds a match in the path.
    pub fn is_match(&self, method: &Method, path: &str) -> (r: Result<(), ()>)
        ensures
            r is Ok <==> method_accepts(self@.method, method.kind, method.name@) && regex_finds(
                self@.path,
                path@,
            ),
    {
        proof {
            use_type_invariant(self);
        }
        if !method_matches(&self.method, method) {
            return Err(());
        }
        if regex_captures_found(self.path.as_str(), path) {
            Ok(())
        } else {
            Err(())
        }
    }

    /// A route selector from its parts; refused, with regex's error text, where the path
    /// does not compile.
    pub fn new(
        topic: Option<ValuePattern<Topic>>,
        method: ValuePattern<MethodPattern>,
        path: String,
        filters: ScopeFilters,
    ) -> (r: Result<Self, MsgErr>)
        ensures
            r is Ok <==> regex_accepts(path@),
            r matches Ok(s) ==> s@ == selector_model(topic, method, path, filters),
            r matches Err(e) ==> e.is_status(500, regex_refusal(path@)),
    {
        if !regex_compiles(path.as_str()) {
            let m = regex_error_text(path.as_str());
            return Err(MsgErr::new(500, m.as_str()));
        }
        Ok(RouteSelector { topic, method, path, filters })
    }

    /// The selector of any method on any path (`/.*`), with no topic and no filters; refused
    /// only where regex does not compile `/.*`.
    pub fn any() -> (r: Result<Self, MsgErr>)
        ensures
            r is Ok <==> regex_accepts("/.*"@),
            r matches Ok(s) ==> s@.method is Any && s@.topic is None && s@.path == "/.*"@
                && s@.filters.len() == 0,
    {
        RouteSelector::from_method(ValuePattern::Any)
    }

    /// The selector of a method pattern on any path (`/.*`), with no topic and no filters;
    /// refused only where regex does not compile `/.*`.
    pub fn from_method(method: ValuePattern<MethodPattern>) -> (r: Result<Self, MsgErr>)
        ensures
            r is Ok <==> regex_accepts("/.*"@),
            r matches Ok(s) ==> s@.method == method_patterns_view(method) && s@.topic is None
                && s@.path == "/.*"@ && s@.filters.len() == 0,
    {
        let filters = ScopeFiltersDef { filters: Vec::new() };
        assert(filters_view(filters.filters@) =~= Seq::<(Seq<char>, Option<Seq<char>>)>::empty());
        RouteSelector::new(None, method, "/.*".to_string(), filters)
    }

    /// The same selector for the topic `topic` only.
    pub fn with_topic(self, topic: Topic) -> (r: Self)
        ensures
            r@ == (RouteSelectorModel {
                topic: Some(ValuePattern::Pattern(topic_model(topic))),
                ..self@
            }),
    {
        proof {
            use_type_invariant(&self);
        }
        RouteSelector {
            topic: Some(ValuePattern::Pattern(topic)),
            method: self.method,
            path: self.path,
            filters: self.filters,
        }
    }

    /// The path regex, which compiles.
    pub fn path(&self) -> (r: &String)
        ensures
            r@ == self@.path,
            regex_accepts(r@),
    {
        proof {
            use_type_invariant(self);
        }
        &self.path
    }

    pub fn method(&self) -> (r: &ValuePattern<MethodPattern>)
        ensures
            match *r {
                ValuePattern::Any => self@.method is Any,
                ValuePattern::Nothing => self@.method is Nothing,
                ValuePattern::Pattern(m) => self@.method == ValuePattern::Pattern(
                    method_pattern_view(m),
                ),
            },
    {
        &self.method
    }

    pub fn topic(&self) -> (r: &Option<ValuePattern<Topic>>)
        ensures
            match *r {
                Some(t) => self@.topic == Some(topic_pattern_view(t)),
                None => self@.topic is None,
            },
    {
        &self.topic
    }

    pub fn filters(&self) -> (r: &ScopeFilters)
        ensures
            filters_view(r.filters@) == self@.filters,
    {
        &self.filters
    }
}

fn name_matches(p: &ValuePattern<CamelCase>, name: &String) -> (b: bool)
    ensures
        b == name_accepts(name_pattern_view(*p), name@),
{
    match p {
        ValuePattern::Any => true,
        ValuePattern::Nothing => false,
        ValuePattern::Pattern(n) => crate::text::str_eq(n.as_str(), name.as_str()),
    }
}

fn method_matches(p: &ValuePattern<MethodPattern>, m: &Method) -> (b: bool)
    ensures
        b == method_accepts(
            match *p {
                ValuePattern::Any => ValuePattern::Any,
                ValuePattern::Nothing => ValuePattern::Nothing,
                ValuePattern::Pattern(x) => ValuePattern::Pattern(method_pattern_view(x)),
            },
            m.kind,
            m.name@,
        ),
{
    match p {
        ValuePattern::Any => true,
        ValuePattern::Nothing => false,
        ValuePattern::Pattern(x) => match x {
            MethodPatternDef::Sys(n) => m.kind == MethodKind::Sys && name_matches(n, &m.name),
            MethodPatternDef::Msg(n) => m.kind == MethodKind::Msg && name_matches(n, &m.name),
            MethodPatternDef::Http(n) => m.kind == MethodKind::Http && name_matches(n, &m.name),
        },
    }
}

// ---- the grammar of route selectors ----

/// The topic pattern that the text inside a route selector's `[...]` starts with: `*` for any
/// topic, or `Topic<Cli>`, `Topic<Path>(segment)`, `Topic<Uuid>(id)`, `Topic<*>`, `Topic<!>`.
pub open spec fn topic_at(c: Seq<char>) -> Option<ValuePattern<TopicModel>> {
    if starts_at(c, 0, "*"@) {
        Some(ValuePattern::Any)
    } else if starts_at(c, 0, "Topic<Cli>"@) {
        Some(ValuePattern::Pattern(TopicModel::Cli))
    } else if starts_at(c, 0, "Topic<Path>("@) && skewer_end(c, 12) > 12 && char_at(
        c,
        skewer_end(c, 12),
        ')',
    ) {
        Some(ValuePattern::Pattern(TopicModel::Path(seq![c.subrange(12, skewer_end(c, 12))])))
    } else if starts_at(c, 0, "Topic<Uuid>("@) && skewer_end(c, 12) > 12 && char_at(
        c,
        skewer_end(c, 12),
        ')',
    ) {
        Some(ValuePattern::Pattern(TopicModel::Uuid(c.subrange(12, skewer_end(c, 12)))))
    } else if starts_at(c, 0, "Topic<*>"@) {
        Some(ValuePattern::Pattern(TopicModel::Any))
    } else if starts_at(c, 0, "Topic<!>"@) {
        Some(ValuePattern::Pattern(TopicModel::Not))
    } else {
        None
    }
}

/// The first position from `i` on that holds `c`, or the end.
pub open spec fn find_from(s: Seq<char>, i: int, c: char) -> int
    decreases s.len() - i,
{
    if 0 <= i < s.len() && s[i] != c {
        find_from(s, i + 1, c)
    } else {
        i
    }
}

/// The optional topic in front of a route selector: `[` a topic pattern `]::`. The outer
/// `None` is a text that starts with `[` but holds no such topic; the inner one is no topic.
pub open spec fn topic_prefix(s: Seq<char>) -> Option<Option<(ValuePattern<TopicModel>, int)>> {
    if !char_at(s, 0, '[') {
        Some(None)
    } else {
        let b = find_from(s, 1, ']');
        if b < s.len() && starts_at(s, b + 1, "::"@) {
            match topic_at(s.subrange(1, b)) {
                Some(t) => Some(Some((t, b + 3))),
                None => None,
            }
        } else {
            None
        }
    }
}

/// The end of a name at `i`: letters and digits, or `*`; `i` where there is none.
pub open spec fn name_end(s: Seq<char>, i: int) -> int {
    if run_end(s, i, CharClass::Alnum) > i {
        run_end(s, i, CharClass::Alnum)
    } else if char_at(s, i, '*') {
        i + 1
    } else {
        i
    }
}

/// The names inside `<...>` at `j`: a name, then its own `<...>` where it has one, then `>`;
/// with the position after the `>`.
pub open spec fn inner_names(s: Seq<char>, j: int) -> Option<(Seq<(int, int)>, int)>
    decreases s.len() - j,
{
    if j < 0 || j >= s.len() {
        None
    } else {
        let a = j + 1;
        let n = name_end(s, a);
        if n <= a {
            None
        } else if char_at(s, n, '<') {
            match inner_names(s, n) {
                Some((rest, e)) => if char_at(s, e, '>') {
                    Some((seq![(a, n)] + rest, e + 1))
                } else {
                    None
                },
                None => None,
            }
        } else if char_at(s, n, '>') {
            Some((seq![(a, n)], n + 1))
        } else {
            None
        }
    }
}

/// The stack of names at `i`, each inside the one before: `Http<Get>` is `Http`, then `Get`;
/// as their spans, with the position after them.
pub open spec fn names_at(s: Seq<char>, i: int) -> Option<(Seq<(int, int)>, int)> {
    if char_at(s, i, '<') {
        inner_names(s, i)
    } else {
        let n = name_end(s, i);
        if n <= i {
            None
        } else if char_at(s, n, '<') {
            match inner_names(s, n) {
                Some((rest, e)) => Some((seq![(i, n)] + rest, e)),
                None => None,
            }
        } else {
            Some((seq![(i, n)], n))
        }
    }
}

/// A filter at `k`: `(`, a skewer name followed by the end, white space or `)`, and after
/// white space an argument text up to the next `)`; then `)`.
pub open spec fn filter_at(s: Seq<char>, k: int) -> Step<(Seq<char>, Option<Seq<char>>)> {
    if !char_at(s, k, '(') {
        Step::Miss
    } else {
        let a = k + 1;
        let e = skewer_end(s, a);
        if e <= a || !(e == s.len() || is_multispace(s[e]) || s[e] == ')') {
            Step::Fail
        } else {
            let w = run_end(s, e, CharClass::Space);
            if w > e {
                let z = find_from(s, w, ')');
                if z < s.len() {
                    Step::Done((s.subrange(a, e), Some(s.subrange(w, z))), z + 1)
                } else {
                    Step::Fail
                }
            } else if char_at(s, e, ')') {
                Step::Done((s.subrange(a, e), None), e + 1)
            } else {
                Step::Fail
            }
        }
    }
}

/// Filters after the first, each after a `-`.
pub open spec fn more_filters(s: Seq<char>, k: int) -> Option<(Seq<(Seq<char>, Option<Seq<char>>)>, int)>
    decreases s.len() - k,
{
    if 0 <= k < s.len() && s[k] == '-' {
        match filter_at(s, k + 1) {
            Step::Done(f, e) => if e > k {
                match more_filters(s, e) {
                    Some((fs, e2)) => Some((seq![f] + fs, e2)),
                    None => None,
                }
            } else {
                None
            },
            Step::Miss => Some((Seq::empty(), k)),
            Step::Fail => None,
        }
    } else {
        Some((Seq::empty(), k))
    }
}

/// The filters at `k`: an optional first one, then more, each after a `-`.
pub open spec fn filters_at(s: Seq<char>, k: int) -> Option<(Seq<(Seq<char>, Option<Seq<char>>)>, int)> {
    match filter_at(s, k) {
        Step::Done(f, e) => match more_filters(s, e) {
            Some((fs, e2)) => Some((seq![f] + fs, e2)),
            None => None,
        },
        Step::Miss => more_filters(s, k),
        Step::Fail => None,
    }
}

/// The end of a path regex at `k`: `/` and the characters up to white space, where regex
/// compiles them; `None` where there is no such path.
pub open spec fn path_end(s: Seq<char>, k: int) -> Option<int> {
    if char_at(s, k, '/') && regex_accepts(s.subrange(k, run_to(s, k + 1, false))) {
        Some(run_to(s, k + 1, false))
    } else {
        None
    }
}

/// Why a route selector's text does not read as one.
pub enum RouteFailure {
    /// Its topic, names or filters do not read.
    Lex,
    /// The parse context and position at which a method kind or name does not read.
    Context(Seq<char>, int),
    /// A message and a label on the span between two positions.
    Span(Seq<char>, Seq<char>, int, int),
}

/// The message for a method kind that needs a sub kind but has none.
pub open spec fn needs_sub_message(k: MethodKind) -> Seq<char> {
    match k {
        MethodKind::Sys => "Sys method requires a sub kind i.e. Sys<Assign> or Msg<*>"@,
        MethodKind::Msg => "Msg method requires a sub kind i.e. Msg<Get> or Msg<*>"@,
        _ => "Http method requires a sub kind i.e. Http<Get> or Http<*>"@,
    }
}

/// The kind a method kind's text starts with.
pub open spec fn kind_at(t: Seq<char>) -> Option<MethodKind> {
    if starts_at(t, 0, "Cmd"@) {
        Some(MethodKind::Cmd)
    } else if starts_at(t, 0, "Msg"@) {
        Some(MethodKind::Msg)
    } else if starts_at(t, 0, "Http"@) {
        Some(MethodKind::Http)
    } else if starts_at(t, 0, "Sys"@) {
        Some(MethodKind::Sys)
    } else {
        None
    }
}

/// The pattern of method names a name's text stands for: `*` for any, else the camel case
/// name it starts with; `None` where it starts with neither.
pub open spec fn method_name_at(t: Seq<char>) -> Option<ValuePattern<Seq<char>>> {
    if starts_at(t, 0, "*"@) {
        Some(ValuePattern::Any)
    } else if camel_end(t, 0) > 0 {
        Some(ValuePattern::Pattern(t.take(camel_end(t, 0))))
    } else {
        None
    }
}

/// The message for more names than a method pattern takes.
pub open spec fn too_many_message() -> Seq<char> {
    "Too many SubKinds: only Http/Msg supported with one subkind i.e. Http<Get>, Msg<MyMethod>"@
}

/// The method pattern of a stack of names, and how many of the names it takes.
pub open spec fn method_of(s: Seq<char>, names: Seq<(int, int)>) -> Result<
    (ValuePattern<MethodPatternDef<Seq<char>>>, int),
    RouteFailure,
> {
    let (k0, k1) = names[0];
    let kt = s.subrange(k0, k1);
    if starts_at(kt, 0, "*"@) {
        Ok((ValuePattern::Any, 1))
    } else {
        match kind_at(kt) {
            None => Err(RouteFailure::Context("eof"@, k0)),
            Some(MethodKind::Cmd) => Err(
                RouteFailure::Span("Cmd not supported yet"@, "not supported (yet)"@, k0, k1),
            ),
            Some(k) => if names.len() < 2 {
                Err(RouteFailure::Span(needs_sub_message(k), "sub kind required"@, k0, k1))
            } else {
                let (m0, m1) = names[1];
                match method_name_at(s.subrange(m0, m1)) {
                    None => Err(
                        RouteFailure::Context(
                            if k == MethodKind::Http {
                                "http_method"@
                            } else {
                                "eof"@
                            },
                            m0,
                        ),
                    ),
                    Some(n) => Ok(
                        (
                            ValuePattern::Pattern(
                                match k {
                                    MethodKind::Sys => MethodPatternDef::Sys(n),
                                    MethodKind::Msg => MethodPatternDef::Msg(n),
                                    _ => MethodPatternDef::Http(n),
                                },
                            ),
                            2,
                        ),
                    ),
                }
            },
        }
    }
}

/// What the whole text `s` of a route selector reads as: an optional topic, a stack of names
/// (a method kind and a method name), filters and an optional path regex (`/.*` where none is
/// given), which must take the whole text.
pub open spec fn route_selector_at(s: Seq<char>) -> Result<RouteSelectorModel, RouteFailure> {
    match topic_prefix(s) {
        None => Err(RouteFailure::Lex),
        Some(topic) => {
            let i = match topic {
                Some((_, e)) => e,
                None => 0,
            };
            match names_at(s, i) {
                None => Err(RouteFailure::Lex),
                Some((names, n)) => match filters_at(s, n) {
                    None => Err(RouteFailure::Lex),
                    Some((filters, f)) => {
                        let (path, e) = match path_end(s, f) {
                            Some(pe) => (s.subrange(f, pe), pe),
                            None => ("/.*"@, f),
                        };
                        if e < s.len() {
                            Err(
                                RouteFailure::Span(
                                    "could not consume entire route selector"@,
                                    "extra"@,
                                    e,
                                    s.len() as int,
                                ),
                            )
                        } else {
                            match method_of(s, names) {
                                Err(x) => Err(x),
                                Ok((method, taken)) => if names.len() > taken {
                                    Err(
                                        RouteFailure::Span(
                                            too_many_message(),
                                            "too many subkinds"@,
                                            names[taken].0,
                                            names[taken].1,
                                        ),
                                    )
                                } else if !regex_accepts(path) {
                                    Err(RouteFailure::Context("regex"@, f))
                                } else {
                                    Ok(
                                        RouteSelectorModel {
                                            topic: match topic {
                                                Some((t, _)) => Some(t),
                                                None => None,
                                            },
                                            method,
                                            path,
                                            filters,
                                        },
                                    )
                                },
                            }
                        }
                    },
                },
            }
        },
    }
}

/// The error a route selector's text gets for a failure: for a span, its message with its
/// label on the span; for a context, that context's report at that place.
pub open spec fn route_error(x: MsgErr, s: Seq<char>, f: RouteFailure) -> bool {
    match f {
        RouteFailure::Lex => x is ParseErrs,
        RouteFailure::Context(c, p) => is_context_error(x, s, c, p),
        RouteFailure::Span(m, l, a, b) => x matches MsgErr::ParseErrs(e) && e.source matches Some(
            src,
        ) && src@ == s && is_err_report(
            e,
            byte_len(s.take(a)),
            (m, Some((l, byte_len(s.subrange(a, b))))),
        ),
    }
}


// ---- reading route selectors ----

fn find_from_exec(cs: &Vec<char>, i: usize, c: char) -> (e: usize)
    requires
        i <= cs@.len(),
    ensures
        e == find_from(cs@, i as int, c),
        i <= e <= cs@.len(),
{
    let mut e = i;
    while e < cs.len() && cs[e] != c
        invariant
            i <= e <= cs@.len(),
            find_from(cs@, i as int, c) == find_from(cs@, e as int, c),
        decreases cs@.len() - e,
    {
        e = e + 1;
    }
    e
}

fn topic_at_exec(c: &Vec<char>) -> (r: Option<ValuePattern<Topic>>)
    ensures
        match topic_at(c@) {
            Some(t) => r matches Some(x) && topic_pattern_view(x) == t,
            None => r is None,
        },
{
    proof {
        reveal_strlit("*");
        reveal_strlit("Topic<Cli>");
        reveal_strlit("Topic<Path>(");
        reveal_strlit("Topic<Uuid>(");
        reveal_strlit("Topic<*>");
        reveal_strlit("Topic<!>");
    }
    if has_at(c, 0, "*") {
        return Some(ValuePattern::Any);
    }
    if has_at(c, 0, "Topic<Cli>") {
        return Some(ValuePattern::Pattern(Topic::Cli));
    }
    if has_at(c, 0, "Topic<Path>(") {
        let e = skewer_end_exec(c, 12);
        if e > 12 && is_at(c, e, ')') {
            let seg = string_of(c, 12, e);
            proof {
                lemma_run_end(c@, 13, CharClass::VarTail);
                assert forall|i: int| 1 <= i < seg@.len() implies crate::text::is_var_tail_char(
                    #[trigger] seg@[i],
                ) by {
                    assert(seg@[i] == c@[12 + i]);
                }
            }
            let sk = SkewerCase::from_str(seg.as_str()).unwrap();
            let mut v: Vec<SkewerCase> = Vec::new();
            v.push(sk);
            proof {
                assert(view_skewers(v@) =~= seq![c@.subrange(12, e as int)]);
            }
            return Some(ValuePattern::Pattern(Topic::Path(v)));
        }
    }
    if has_at(c, 0, "Topic<Uuid>(") {
        let e = skewer_end_exec(c, 12);
        if e > 12 && is_at(c, e, ')') {
            return Some(ValuePattern::Pattern(Topic::Uuid(string_of(c, 12, e))));
        }
    }
    if has_at(c, 0, "Topic<*>") {
        return Some(ValuePattern::Pattern(Topic::Any));
    }
    if has_at(c, 0, "Topic<!>") {
        return Some(ValuePattern::Pattern(Topic::Not));
    }
    None
}

fn topic_prefix_exec(cs: &Vec<char>) -> (r: Option<Option<(ValuePattern<Topic>, usize)>>)
    ensures
        match topic_prefix(cs@) {
            None => r is None,
            Some(None) => r matches Some(None),
            Some(Some((t, e))) => r matches Some(Some((x, f))) && topic_pattern_view(x) == t
                && f == e,
        },
        r matches Some(Some((_, f))) ==> f <= cs@.len(),
{
    proof {
        reveal_strlit("::");
    }
    if !is_at(cs, 0, '[') {
        return Some(None);
    }
    let b = find_from_exec(cs, 1, ']');
    if b < cs.len() && has_at(cs, b + 1, "::") {
        let content = chars_of(string_of(cs, 1, b).as_str());
        match topic_at_exec(&content) {
            Some(t) => Some(Some((t, b + 3))),
            None => None,
        }
    } else {
        None
    }
}

fn name_end_exec(cs: &Vec<char>, i: usize) -> (e: usize)
    requires
        i <= cs@.len(),
    ensures
        e == name_end(cs@, i as int),
        e <= cs@.len(),
{
    let n = scan(cs, i, CharClass::Alnum);
    if n > i {
        n
    } else if i < cs.len() && cs[i] == '*' {
        i + 1
    } else {
        i
    }
}

/// Spans as pairs of positions.
pub open spec fn spans_view(v: Seq<(usize, usize)>) -> Seq<(int, int)> {
    v.map_values(|p: (usize, usize)| (p.0 as int, p.1 as int))
}

fn prepend(a: usize, n: usize, rest: Vec<(usize, usize)>) -> (r: Vec<(usize, usize)>)
    ensures
        spans_view(r@) == seq![(a as int, n as int)] + spans_view(rest@),
        r@.len() == rest@.len() + 1,
        forall|i: int| 0 <= i < rest@.len() ==> r@[i + 1] == rest@[i],
        r@[0] == (a, n),
{
    let mut v: Vec<(usize, usize)> = Vec::new();
    v.push((a, n));
    let mut rest = rest;
    let ghost rv = rest@;
    v.append(&mut rest);
    assert(spans_view(v@) =~= seq![(a as int, n as int)] + spans_view(rv));
    v
}

fn inner_names_exec(cs: &Vec<char>, j: usize) -> (r: Option<(Vec<(usize, usize)>, usize)>)
    ensures
        match inner_names(cs@, j as int) {
            None => r is None,
            Some((ns, e)) => r matches Some((v, f)) && spans_view(v@) == ns && f == e,
        },
        r matches Some((v, f)) ==> f <= cs@.len() && forall|i: int|
            0 <= i < v@.len() ==> (#[trigger] v@[i]).0 <= v@[i].1 <= cs@.len(),
    decreases cs@.len() - j,
{
    if j >= cs.len() {
        return None;
    }
    let a = j + 1;
    let n = name_end_exec(cs, a);
    if n <= a {
        return None;
    }
    if is_at(cs, n, '<') {
        match inner_names_exec(cs, n) {
            Some((rest, e)) => if e < cs.len() && cs[e] == '>' {
                let v = prepend(a, n, rest);
                assert forall|i: int| 0 <= i < v@.len() implies (#[trigger] v@[i]).0 <= v@[i].1
                    <= cs@.len() by {
                    if i > 0 {
                        assert(v@[i] == rest@[i - 1]);
                    }
                }
                Some((v, e + 1))
            } else {
                None
            },
            None => None,
        }
    } else if n < cs.len() && cs[n] == '>' {
        let v = prepend(a, n, Vec::new());
        Some((v, n + 1))
    } else {
        None
    }
}

fn names_at_exec(cs: &Vec<char>, i: usize) -> (r: Option<(Vec<(usize, usize)>, usize)>)
    requires
        i <= cs@.len(),
    ensures
        match names_at(cs@, i as int) {
            None => r is None,
            Some((ns, e)) => r matches Some((v, f)) && spans_view(v@) == ns && f == e,
        },
        r matches Some((v, f)) ==> f <= cs@.len() && v@.len() > 0 && forall|k: int|
            0 <= k < v@.len() ==> (#[trigger] v@[k]).0 <= v@[k].1 <= cs@.len(),
{
    if is_at(cs, i, '<') {
        let r = inner_names_exec(cs, i);
        proof {
            reveal_with_fuel(inner_names, 2);
        }
        return r;
    }
    let n = name_end_exec(cs, i);
    if n <= i {
        return None;
    }
    if is_at(cs, n, '<') {
        match inner_names_exec(cs, n) {
            Some((rest, e)) => {
                let v = prepend(i, n, rest);
                assert forall|k: int| 0 <= k < v@.len() implies (#[trigger] v@[k]).0 <= v@[k].1
                    <= cs@.len() by {
                    if k > 0 {
                        assert(v@[k] == rest@[k - 1]);
                    }
                }
                Some((v, e))
            },
            None => None,
        }
    } else {
        Some((prepend(i, n, Vec::new()), n))
    }
}

/// A filter by its texts.
pub open spec fn filter_view(f: ScopeFilterDef<String>) -> (Seq<char>, Option<Seq<char>>) {
    (
        f.name@,
        match f.args {
            Some(a) => Some(a@),
            None => None,
        },
    )
}

fn filter_at_exec(cs: &Vec<char>, k: usize) -> (r: Outcome<ScopeFilterDef<String>>)
    requires
        k <= cs@.len(),
    ensures
        match (r, filter_at(cs@, k as int)) {
            (Outcome::Done(f, e), Step::Done(m, g)) => filter_view(f) == m && e == g && e
                <= cs@.len(),
            (Outcome::Miss, Step::Miss) => true,
            (Outcome::Fail, Step::Fail) => true,
            _ => false,
        },
{
    if !(k < cs.len() && cs[k] == '(') {
        return Outcome::Miss;
    }
    let a = k + 1;
    let e = skewer_end_exec(cs, a);
    if e <= a || !(e == cs.len() || multispace(cs[e]) || cs[e] == ')') {
        return Outcome::Fail;
    }
    let w = scan(cs, e, CharClass::Space);
    if w > e {
        let z = find_from_exec(cs, w, ')');
        if z < cs.len() {
            Outcome::Done(
                ScopeFilterDef { name: string_of(cs, a, e), args: Some(string_of(cs, w, z)) },
                z + 1,
            )
        } else {
            Outcome::Fail
        }
    } else if is_at(cs, e, ')') {
        Outcome::Done(ScopeFilterDef { name: string_of(cs, a, e), args: None }, e + 1)
    } else {
        Outcome::Fail
    }
}

fn more_filters_exec(cs: &Vec<char>, k: usize) -> (r: Option<(Vec<ScopeFilterDef<String>>, usize)>)
    requires
        k <= cs@.len(),
    ensures
        match more_filters(cs@, k as int) {
            None => r is None,
            Some((fs, e)) => r matches Some((v, f)) && filters_view(v@) == fs && f == e && f
                <= cs@.len(),
        },
    decreases cs@.len() - k,
{
    if k < cs.len() && cs[k] == '-' {
        match filter_at_exec(cs, k + 1) {
            Outcome::Done(f, e) => {
                if e <= k {
                    return None;
                }
                match more_filters_exec(cs, e) {
                    Some((fs, e2)) => {
                        let mut v: Vec<ScopeFilterDef<String>> = Vec::new();
                        v.push(f);
                        let mut fs = fs;
                        let ghost fv = fs@;
                        v.append(&mut fs);
                        assert(filters_view(v@) =~= seq![filter_view(v@[0])] + filters_view(fv));
                        Some((v, e2))
                    },
                    None => None,
                }
            },
            Outcome::Miss => Some((Vec::new(), k)),
            Outcome::Fail => None,
        }
    } else {
        let v: Vec<ScopeFilterDef<String>> = Vec::new();
        assert(filters_view(v@) =~= Seq::<(Seq<char>, Option<Seq<char>>)>::empty());
        Some((v, k))
    }
}

pub(crate) fn filters_at_exec(cs: &Vec<char>, k: usize) -> (r: Option<(Vec<ScopeFilterDef<String>>, usize)>)
    requires
        k <= cs@.len(),
    ensures
        match filters_at(cs@, k as int) {
            None => r is None,
            Some((fs, e)) => r matches Some((v, f)) && filters_view(v@) == fs && f == e && f
                <= cs@.len(),
        },
{
    match filter_at_exec(cs, k) {
        Outcome::Done(f, e) => match more_filters_exec(cs, e) {
            Some((fs, e2)) => {
                let mut v: Vec<ScopeFilterDef<String>> = Vec::new();
                v.push(f);
                let mut fs = fs;
                let ghost fv = fs@;
                v.append(&mut fs);
                assert(filters_view(v@) =~= seq![filter_view(v@[0])] + filters_view(fv));
                Some((v, e2))
            },
            None => None,
        },
        Outcome::Miss => more_filters_exec(cs, k),
        Outcome::Fail => None,
    }
}

fn span_error(input: &str, cs: &Vec<char>, a: usize, b: usize, message: &str, label: &str) -> (r: MsgErr)
    requires
        cs@ == input@,
        a <= b <= cs@.len(),
    ensures
        route_error(r, input@, RouteFailure::Span(message@, label@, a as int, b as int)),
{
    let before = string_of(cs, 0, a);
    let span = string_of(cs, a, b);
    assert(before@ =~= input@.take(a as int));
    let offset = before.as_str().len();
    let width = span.as_str().len();
    build_report(message.to_string(), Some((label.to_string(), width)), offset, input.to_string())
}

fn method_of_exec(input: &str, cs: &Vec<char>, names: &Vec<(usize, usize)>) -> (r: Result<
    (ValuePattern<MethodPattern>, usize),
    MsgErr,
>)
    requires
        cs@ == input@,
        names@.len() > 0,
        forall|k: int| 0 <= k < names@.len() ==> (#[trigger] names@[k]).0 <= names@[k].1 <= cs@.len(),
    ensures
        match method_of(cs@, spans_view(names@)) {
            Ok((m, t)) => r matches Ok((x, u)) && u == t && match x {
                ValuePattern::Any => m is Any,
                ValuePattern::Nothing => m is Nothing,
                ValuePattern::Pattern(p) => m == ValuePattern::Pattern(method_pattern_view(p)),
            },
            Err(f) => r matches Err(x) && route_error(x, input@, f),
        },
{
    proof {
        reveal_strlit("*");
        reveal_strlit("Cmd");
        reveal_strlit("Msg");
        reveal_strlit("Http");
        reveal_strlit("Sys");
    }
    let (k0, k1) = names[0];
    let kt = chars_of(string_of(cs, k0, k1).as_str());
    if has_at(&kt, 0, "*") {
        return Ok((ValuePattern::Any, 1));
    }
    let kind = if has_at(&kt, 0, "Cmd") {
        MethodKind::Cmd
    } else if has_at(&kt, 0, "Msg") {
        MethodKind::Msg
    } else if has_at(&kt, 0, "Http") {
        MethodKind::Http
    } else if has_at(&kt, 0, "Sys") {
        MethodKind::Sys
    } else {
        return Err(context_error(input, cs, k0, "eof"));
    };
    if kind == MethodKind::Cmd {
        return Err(span_error(input, cs, k0, k1, "Cmd not supported yet", "not supported (yet)"));
    }
    if names.len() < 2 {
        let m = match kind {
            MethodKind::Sys => "Sys method requires a sub kind i.e. Sys<Assign> or Msg<*>",
            MethodKind::Msg => "Msg method requires a sub kind i.e. Msg<Get> or Msg<*>",
            _ => "Http method requires a sub kind i.e. Http<Get> or Http<*>",
        };
        return Err(span_error(input, cs, k0, k1, m, "sub kind required"));
    }
    let (m0, m1) = names[1];
    let mt = chars_of(string_of(cs, m0, m1).as_str());
    let n: ValuePattern<CamelCase> = if has_at(&mt, 0, "*") {
        ValuePattern::Any
    } else {
        let ce = camel_end_exec(&mt, 0);
        if ce == 0 {
            if kind == MethodKind::Http {
                return Err(context_error(input, cs, m0, "http_method"));
            } else {
                return Err(context_error(input, cs, m0, "eof"));
            }
        }
        let t = string_of(&mt, 0, ce);
        proof {
            lemma_run_end(mt@, 1, CharClass::Alnum);
            assert forall|i: int| 1 <= i < t@.len() implies crate::text::is_alnum(
                #[trigger] t@[i],
            ) by {
                assert(t@[i] == mt@[i]);
            }
            assert(t@ =~= mt@.take(ce as int));
        }
        ValuePattern::Pattern(CamelCase::from_str(t.as_str()).unwrap())
    };
    let p = match kind {
        MethodKind::Sys => MethodPatternDef::Sys(n),
        MethodKind::Msg => MethodPatternDef::Msg(n),
        _ => MethodPatternDef::Http(n),
    };
    Ok((ValuePattern::Pattern(p), 2))
}

/// The route selector that the whole of `input` reads as: an optional topic `[...]::`, a stack
/// of names giving the method kind and name (`Http<Get>`, `Msg<*>`, `*`), filters such as
/// `(auth)-(scope admin)`, and an optional path regex (`/.*` where none is given). Where it
/// does not read, the error reports why, at the place it applies to.
pub fn route_selector(input: &str) -> (r: Result<RouteSelector, MsgErr>)
    ensures
        match route_selector_at(input@) {
            Ok(m) => r matches Ok(s) && s@ == m,
            Err(f) => r matches Err(x) && route_error(x, input@, f),
        },
{
    proof {
        reveal_strlit("/.*");
    }
    let cs = chars_of(input);
    let (topic, i) = match topic_prefix_exec(&cs) {
        None => {
            return Err(context_error(input, &cs, 0, "scope-selector"));
        },
        Some(Some((t, e))) => (Some(t), e),
        Some(None) => (None, 0),
    };
    let (names, n) = match names_at_exec(&cs, i) {
        None => {
            return Err(context_error(input, &cs, i, "scope-selector"));
        },
        Some(x) => x,
    };
    let (filters, f) = match filters_at_exec(&cs, n) {
        None => {
            return Err(context_error(input, &cs, n, "scope-filter"));
        },
        Some(x) => x,
    };
    let (path, e) = if is_at(&cs, f, '/') {
        let pe = run_to_exec(&cs, f + 1, false);
        let p = string_of(&cs, f, pe);
        if regex_compiles(p.as_str()) {
            (p, pe)
        } else {
            ("/.*".to_string(), f)
        }
    } else {
        ("/.*".to_string(), f)
    };
    if e < cs.len() {
        return Err(
            span_error(
                input,
                &cs,
                e,
                cs.len(),
                "could not consume entire route selector",
                "extra",
            ),
        );
    }
    let (method, taken) = method_of_exec(input, &cs, &names)?;
    if names.len() > taken {
        let (a, b) = names[taken];
        return Err(
            span_error(
                input,
                &cs,
                a,
                b,
                "Too many SubKinds: only Http/Msg supported with one subkind i.e. Http<Get>, Msg<MyMethod>",
                "too many subkinds",
            ),
        );
    }
    if !regex_compiles(path.as_str()) {
        return Err(context_error(input, &cs, f, "regex"));
    }
    Ok(RouteSelector { topic, method, path, filters: ScopeFiltersDef { filters } })
}


/// The filter at the start of `input`, `(name)` or `(name args)`, with the text after it.
/// Where none reads, an error.
pub fn scope_filter(input: &str) -> (r: Result<(String, ScopeFilterDef<String>), MsgErr>)
    ensures
        match filter_at(input@, 0) {
            Step::Done(m, e) => r matches Ok((rest, f)) && filter_view(f) == m && rest@
                == input@.subrange(e, input@.len() as int),
            _ => r matches Err(x) && x is ParseErrs,
        },
{
    let cs = chars_of(input);
    match filter_at_exec(&cs, 0) {
        Outcome::Done(f, e) => Ok((string_of(&cs, e, cs.len()), f)),
        _ => Err(context_error(input, &cs, 0, "scope-filter")),
    }
}

/// The filters at the start of `input`, `(name args)` each, the ones after the first after a
/// `-`, with the text after them. Where a filter opens and does not read, an error.
pub fn scope_filters(input: &str) -> (r: Result<(String, ScopeFilters), MsgErr>)
    ensures
        match filters_at(input@, 0) {
            None => r matches Err(x) && x is ParseErrs,
            Some((fs, e)) => r matches Ok((rest, f)) && filters_view(f.filters@) == fs && rest@
                == input@.subrange(e, input@.len() as int),
        },
{
    let cs = chars_of(input);
    match filters_at_exec(&cs, 0) {
        None => Err(context_error(input, &cs, 0, "scope-filter")),
        Some((filters, e)) => Ok((string_of(&cs, e, cs.len()), ScopeFiltersDef { filters })),
    }
}

// ---- scope selectors ----

/// The name at `i` and the block of children after it, where there is one: the name with its
/// end, the span of the children's block, and where reading stopped; `None` where it fails.
pub open spec fn name_and_children(s: Seq<char>, i: int) -> Option<((int, int), Option<(int, int)>, int)> {
    let n = name_end(s, i);
    if n <= i {
        None
    } else {
        match strict_block_at(s, NestedBlockKind::Angle, n) {
            Step::Done(_, b) => Some(((i, n), Some((n, b)), b)),
            Step::Miss => Some(((i, n), None, n)),
            Step::Fail => None,
        }
    }
}

/// The next name of a stack at the start of `s`, `<name<children>>` or `name<children>`: the
/// name's span, the span of its children's block where it has one, and where reading stopped.
pub open spec fn stacked_name_at(s: Seq<char>) -> Option<((int, int), Option<(int, int)>, int)> {
    if char_at(s, 0, '<') {
        match name_and_children(s, 1) {
            Some((nm, ch, e)) => if char_at(s, e, '>') {
                Some((nm, ch, e + 1))
            } else {
                None
            },
            None => None,
        }
    } else {
        name_and_children(s, 0)
    }
}

/// A scope selector at the start of `s`: the next stacked name, and, where it has no children,
/// an optional path regex; with where reading stopped.
pub open spec fn scope_selector_at(s: Seq<char>) -> Option<
    ((int, int), Option<(int, int)>, Option<(int, int)>, int),
> {
    match stacked_name_at(s) {
        None => None,
        Some((nm, ch, e)) => if ch is None {
            match path_end(s, e) {
                Some(pe) => Some((nm, ch, Some((e, pe)), pe)),
                None => Some((nm, ch, None, e)),
            }
        } else {
            Some((nm, ch, None, e))
        },
    }
}

/// The text of an optional span.
pub open spec fn span_text(s: Seq<char>, sp: Option<(int, int)>) -> Option<Seq<char>> {
    match sp {
        Some((a, b)) => Some(s.subrange(a, b)),
        None => None,
    }
}

pub(crate) fn name_and_children_exec(cs: &Vec<char>, i: usize) -> (r: Option<((usize, usize), Option<(usize, usize)>, usize)>)
    requires
        i <= cs@.len(),
    ensures
        match name_and_children(cs@, i as int) {
            None => r is None,
            Some(((a, n), ch, e)) => r matches Some(((x, y), c, f)) && x == a && y == n && f == e
                && match (ch, c) {
                (Some((p, q)), Some((u, v))) => p == u && q == v,
                (None, None) => true,
                _ => false,
            },
        },
        r matches Some(((x, y), c, f)) ==> x <= y <= f <= cs@.len() && match c {
            Some((u, v)) => y == u && u <= v && v == f,
            None => true,
        },
{
    let n = name_end_exec(cs, i);
    if n <= i {
        return None;
    }
    proof {
        lemma_strict_bounds(cs@, n + 1, seq![NestedBlockKind::Angle]);
    }
    match strict_block_end(cs, n, NestedBlockKind::Angle) {
        Outcome::Done(_, b) => Some(((i, n), Some((n, b)), b)),
        Outcome::Miss => Some(((i, n), None, n)),
        Outcome::Fail => None,
    }
}

/// The next name of a stack of scope names at the start of `input`, with its children's block
/// text where it has one, and the text after them. Where none reads, an error.
pub fn next_stacked_name(input: &str) -> (r: Result<(String, (String, Option<String>)), MsgErr>)
    ensures
        match stacked_name_at(input@) {
            None => r matches Err(x) && x is ParseErrs,
            Some(((a, n), ch, e)) => r matches Ok((rest, (name, children))) && rest@
                == input@.subrange(e, input@.len() as int) && name@ == input@.subrange(a, n) && match ch {
                Some((p, q)) => children matches Some(c) && c@ == input@.subrange(p, q),
                None => children is None,
            },
        },
{
    let cs = chars_of(input);
    let found = if is_at(&cs, 0, '<') {
        match name_and_children_exec(&cs, 1) {
            Some((nm, ch, e)) => if is_at(&cs, e, '>') {
                Some((nm, ch, e + 1))
            } else {
                None
            },
            None => None,
        }
    } else {
        name_and_children_exec(&cs, 0)
    };
    match found {
        None => Err(context_error(input, &cs, 0, "scope-selector")),
        Some(((a, n), ch, e)) => {
            let children = match ch {
                Some((p, q)) => Some(string_of(&cs, p, q)),
                None => None,
            };
            Ok((string_of(&cs, e, cs.len()), (string_of(&cs, a, n), children)))
        },
    }
}

/// The scope selector at the start of `cs`: the span of its name, of its children's block, of
/// its path, and where reading stopped.
pub(crate) fn scope_selector_exec(cs: &Vec<char>) -> (r: Option<
    ((usize, usize), Option<(usize, usize)>, Option<(usize, usize)>, usize),
>)
    ensures
        match scope_selector_at(cs@) {
            None => r is None,
            Some(((a, n), ch, path, e)) => r matches Some(((x, y), c, p, f)) && x == a && y == n
                && f == e && a <= n <= e <= cs@.len() && span_view(c) == ch && span_view(p) == path
                && match c {
                Some((u, v)) => u <= v <= e,
                None => true,
            } && match p {
                Some((u, v)) => u <= v <= e,
                None => true,
            },
        },
{
    let len = cs.len();
    let found = if is_at(cs, 0, '<') {
        match name_and_children_exec(cs, 1) {
            Some((nm, ch, e)) => if is_at(cs, e, '>') {
                assert(e < len);
                Some((nm, ch, e + 1))
            } else {
                None
            },
            None => None,
        }
    } else {
        name_and_children_exec(cs, 0)
    };
    match found {
        None => None,
        Some(((a, n), ch, e)) => {
            if ch.is_none() && is_at(cs, e, '/') {
                assert(e < len);
                let pe = run_to_exec(cs, e + 1, false);
                let p = string_of(cs, e, pe);
                if regex_compiles(p.as_str()) {
                    return Some(((a, n), ch, Some((e, pe)), pe));
                }
            }
            Some(((a, n), ch, None, e))
        },
    }
}

/// A span as integers.
pub open spec fn span_view(sp: Option<(usize, usize)>) -> Option<(int, int)> {
    match sp {
        Some((a, b)) => Some((a as int, b as int)),
        None => None,
    }
}

/// The text of an optional span of `cs`.
pub(crate) fn span_string(cs: &Vec<char>, sp: Option<(usize, usize)>) -> (r: Option<String>)
    requires
        sp matches Some((a, b)) ==> a <= b <= cs@.len(),
    ensures
        opt_string_view(r) == span_text(cs@, span_view(sp)),
{
    match sp {
        Some((a, b)) => Some(string_of(cs, a, b)),
        None => None,
    }
}

/// A scope selector at the start of `input`, with the text after it: the next stacked name,
/// its children's block text, and, where there are no children, an optional path regex that
/// regex compiles. Where none reads, an error.
pub fn lex_scope_selector(input: &str) -> (r: Result<(String, LexScopeSelector<String>), MsgErr>)
    ensures
        match scope_selector_at(input@) {
            None => r matches Err(x) && x is ParseErrs,
            Some(((a, n), ch, path, e)) => r matches Ok((rest, sel)) && rest@ == input@.subrange(
                e,
                input@.len() as int,
            ) && sel.name@ == input@.subrange(a, n) && opt_string_view(sel.children) == span_text(
                input@,
                ch,
            ) && opt_string_view(sel.path) == span_text(input@, path),
        },
{
    let cs = chars_of(input);
    match scope_selector_exec(&cs) {
        None => Err(context_error(input, &cs, 0, "scope-selector")),
        Some(((a, n), ch, path, e)) => {
            let children = span_string(&cs, ch);
            let path = span_string(&cs, path);
            Ok((string_of(&cs, e, cs.len()), LexScopeSelector::new(string_of(&cs, a, n), path, children)))
        },
    }
}

} // verus!
