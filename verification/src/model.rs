//! The model of configuration documents: blocks and their delimiters, scopes and their
//! selectors and filters, and pipelines.
use vstd::prelude::*;
use crate::error::MsgErr;
use crate::matching::{regex_accepts, regex_compiles, regex_error_text, regex_refusal};
use crate::text::{push_char, str_eq};

verus! {

/// A scope selector with the filters that follow it.
pub struct ScopeSelectorAndFiltersDef<S, I> {
    pub selector: S,
    pub filters: ScopeFiltersDef<I>,
}

impl<S, I> ScopeSelectorAndFiltersDef<S, I> {
    pub fn new(selector: S, filters: ScopeFiltersDef<I>) -> (r: Self)
        ensures
            r.selector == selector,
            r.filters == filters,
    {
        Self { selector, filters }
    }
}

/// The phase of parsing a configuration: its root, or the scopes inside it.
#[derive(Debug, Clone, Copy, PartialEq, Eq, Structural)]
pub enum ParsePhase {
    Root,
    SubScopes,
}

/// An element and the span of text it was read from.
pub struct Spanned<I, E> {
    pub span: I,
    pub element: E,
}

impl<I, E> Spanned<I, E> {
    pub fn new(element: E, span: I) -> (r: Spanned<I, E>)
        ensures
            r.span == span,
            r.element == element,
    {
        Self { span, element }
    }
}

impl<I> Spanned<I, String> {
    /// The length in bytes of the element's text.
    pub fn len(&self) -> (r: usize)
        requires
            vstd::utf8::encode_utf8(self.element@).len() <= usize::MAX,
        ensures
            r == vstd::utf8::encode_utf8(self.element@).len(),
    {
        self.element.as_str().len()
    }
}

/// The selector of a configuration's root: a name and a version.
pub struct RootScopeSelector<I, V> {
    pub name: I,
    pub version: V,
}

impl<I, V> RootScopeSelector<I, V> {
    pub fn new(name: I, version: V) -> (r: Self)
        ensures
            r.name == name,
            r.version == version,
    {
        RootScopeSelector { name, version }
    }
}

/// A scope selector: a name and a path.
pub struct ScopeSelectorDef<N, P> {
    pub name: N,
    pub path: P,
}

impl<N, P> ScopeSelectorDef<N, P> {
    pub fn new(name: N, path: P) -> (r: Self)
        ensures
            r.name == name,
            r.path == path,
    {
        Self { name, path }
    }
}

/// The selector of a route scope: the name `Route` and a path regex, held as its pattern.
pub struct RouteScopeSelector {
    selector: ScopeSelectorDef<String, String>,
}

impl View for RouteScopeSelector {
    /// The name and the path pattern.
    type V = (Seq<char>, Seq<char>);

    closed spec fn view(&self) -> (Seq<char>, Seq<char>) {
        (self.selector.name@, self.selector.path@)
    }
}

/// The pattern a route scope matches where it gives no path: any path.
pub open spec fn any_path() -> Seq<char> {
    seq!['.', '*']
}

/// The path pattern of a route scope with the path `path`, where one is given.
pub open spec fn route_path(path: Option<Seq<char>>) -> Seq<char> {
    match path {
        Some(p) => p,
        None => any_path(),
    }
}

impl RouteScopeSelector {
    #[verifier::type_invariant]
    spec fn well_formed(&self) -> bool {
        regex_accepts(self.selector.path@)
    }

    /// The route scope selector with the path regex `path`, or `.*` where none is given;
    /// refused, with regex's error text, where the pattern does not compile.
    pub fn new(path: Option<&str>) -> (r: Result<Self, MsgErr>)
        ensures
            r is Ok <==> regex_accepts(route_path(opt_view(path))),
            r matches Ok(s) ==> s@ == ("Route"@, route_path(opt_view(path))),
            r matches Err(e) ==> e.is_status(500, regex_refusal(route_path(opt_view(path)))),
    {
        let pattern = match path {
            Some(p) => p.to_string(),
            None => {
                let mut t = String::new();
                push_char(&mut t, '.');
                push_char(&mut t, '*');
                t
            },
        };
        assert(pattern@ =~= route_path(opt_view(path)));
        if !regex_compiles(pattern.as_str()) {
            let m = regex_error_text(pattern.as_str());
            return Err(MsgErr::new(500, m.as_str()));
        }
        Ok(RouteScopeSelector {
            selector: ScopeSelectorDef { name: "Route".to_string(), path: pattern },
        })
    }

    /// The route scope selector that a read selector names; refused where its name is not
    /// `Route` or its path does not compile.
    pub fn from(selector: LexScopeSelector<String>) -> (r: Result<Self, MsgErr>)
        ensures
            selector.name@ != "Route"@ ==> (r matches Err(e) && e.is_status(500, "expected Route"@)),
            selector.name@ == "Route"@ ==> (r is Ok <==> regex_accepts(
                route_path(opt_string_view(selector.path)),
            )),
            r matches Ok(s) ==> s@ == ("Route"@, route_path(opt_string_view(selector.path))),
    {
        if !str_eq(selector.name.as_str(), "Route") {
            return Err(MsgErr::from_500("expected Route"));
        }
        match &selector.path {
            Some(p) => RouteScopeSelector::new(Some(p.as_str())),
            None => RouteScopeSelector::new(None),
        }
    }

    /// The path pattern, which compiles.
    pub fn path(&self) -> (r: &String)
        ensures
            r@ == self@.1,
            regex_accepts(r@),
    {
        proof {
            use_type_invariant(self);
        }
        &self.selector.path
    }

    pub fn name(&self) -> (r: &String)
        ensures
            r@ == self@.0,
    {
        &self.selector.name
    }
}

/// The text of an optional text.
pub open spec fn opt_view(s: Option<&str>) -> Option<Seq<char>> {
    match s {
        Some(t) => Some(t@),
        None => None,
    }
}

/// The text of an optional string.
pub open spec fn opt_string_view(s: Option<String>) -> Option<Seq<char>> {
    match s {
        Some(t) => Some(t@),
        None => None,
    }
}

/// A scope selector as read: a name, and the texts of a path and of children where given.
pub struct LexScopeSelector<I> {
    pub name: I,
    pub path: Option<I>,
    pub children: Option<I>,
}

impl<I> LexScopeSelector<I> {
    pub fn new(name: I, path: Option<I>, children: Option<I>) -> (r: Self)
        ensures
            r.name == name,
            r.path == path,
            r.children == children,
    {
        Self { name, path, children }
    }

    pub fn has_children(&self) -> (b: bool)
        ensures
            b == (self.children is Some),
    {
        self.children.is_some()
    }
}

/// A route selector as read: a stack of names, filters and a path.
pub struct LexRouteSelector<I> {
    pub names: Vec<I>,
    pub filters: ScopeFiltersDef<I>,
    pub path: Option<I>,
}

/// A filter of a scope: a name and its arguments.
pub struct ScopeFilterDef<I> {
    pub name: I,
    pub args: Option<I>,
}

pub type ScopeFilter = ScopeFilterDef<String>;

pub type ScopeFilters = ScopeFiltersDef<String>;

impl ScopeFilterDef<String> {
    /// The filter with its texts as strings.
    pub fn to_scope_filter(self) -> (r: ScopeFilter)
        ensures
            r.name@ == self.name@,
            match (r.args, self.args) {
                (Some(a), Some(b)) => a@ == b@,
                (None, None) => true,
                _ => false,
            },
    {
        ScopeFilterDef {
            name: self.name,
            args: match self.args {
                None => None,
                Some(args) => Some(args),
            },
        }
    }
}

/// The filters of a scope.
pub struct ScopeFiltersDef<I> {
    pub filters: Vec<ScopeFilterDef<I>>,
}

impl<I> ScopeFiltersDef<I> {
    pub fn is_empty(&self) -> (b: bool)
        ensures
            b == (self.filters@.len() == 0),
    {
        self.filters.len() == 0
    }

    pub fn len(&self) -> (r: usize)
        ensures
            r == self.filters@.len(),
    {
        self.filters.len()
    }

    pub fn empty() -> (r: Self)
        ensures
            r.filters@.len() == 0,
    {
        Self { filters: Vec::new() }
    }
}

impl ScopeFiltersDef<String> {
    /// The filters with their texts as strings.
    pub fn to_scope_filters(self) -> (r: ScopeFilters)
        ensures
            r.filters@ == self.filters@,
    {
        ScopeFiltersDef { filters: self.filters }
    }

    pub fn default() -> (r: Self)
        ensures
            r.filters@.len() == 0,
    {
        Self::empty()
    }
}

/// The steps of a pipeline, in order.
pub struct PipelineDef<S> {
    pub segments: Vec<S>,
}

impl<S> PipelineDef<S> {
    pub fn new() -> (r: Self)
        ensures
            r.segments@.len() == 0,
    {
        Self { segments: Vec::new() }
    }

    /// Takes the first segment off the pipeline.
    pub fn consume(&mut self) -> (r: Option<S>)
        ensures
            old(self).segments@.len() == 0 ==> r is None && final(self).segments@ == old(
                self,
            ).segments@,
            old(self).segments@.len() > 0 ==> r == Some(old(self).segments@[0])
                && final(self).segments@ == old(self).segments@.drop_first(),
    {
        if self.segments.len() == 0 {
            None
        } else {
            let ghost before = self.segments@;
            let s = self.segments.remove(0);
            assert(self.segments@ =~= before.drop_first());
            Some(s)
        }
    }
}

/// Consuming a pipeline segment by segment gives the segments in the order they were set.
pub proof fn law_consume_in_order<S>(before: Seq<S>, after: Seq<S>, taken: Option<S>)
    requires
        before.len() > 0,
        taken == Some(before[0]),
        after == before.drop_first(),
    ensures
        seq![before[0]] + after == before,
        after.len() == before.len() - 1,
{
    assert(seq![before[0]] + after =~= before);
}

/// A scope: a selector and a block.
pub struct ScopeDef<S, B> {
    pub selector: S,
    pub block: B,
}

/// The kinds of scope a binding has.
#[derive(Debug, Clone, Copy, PartialEq, Eq, Structural)]
pub enum BindScopeKind {
    Pipelines,
}

/// The filters every scope knows.
#[derive(Debug, Clone, Copy, PartialEq, Eq, Structural)]
pub enum BuiltInFilter {
    Auth,
    NoAuth,
}

/// A scope with a selector, an optional pipeline step and a block.
pub struct Scope<S, B, P> {
    pub selector: S,
    pub pipeline_step: Option<P>,
    pub block: B,
}

impl<S, B, P> Scope<S, B, P> {
    pub fn new(selector: S, block: B) -> (r: Self)
        ensures
            r.selector == selector,
            r.block == block,
            r.pipeline_step is None,
    {
        Self { selector, block, pipeline_step: None }
    }

    pub fn new_with_pipeline_step(selector: S, block: B, pipeline_step: Option<P>) -> (r: Self)
        ensures
            r.selector == selector,
            r.block == block,
            r.pipeline_step == pipeline_step,
    {
        Self { selector, block, pipeline_step }
    }

    /// The same scope with another block.
    pub fn upgrade<ToBlock>(self, block: ToBlock) -> (r: Scope<S, ToBlock, P>)
        ensures
            r.selector == self.selector,
            r.block == block,
            r.pipeline_step == self.pipeline_step,
    {
        Scope { selector: self.selector, block, pipeline_step: self.pipeline_step }
    }
}

/// A block of text: its kind, content and data.
pub struct Block<I, D> {
    pub kind: BlockKind,
    pub content: I,
    pub data: D,
}

impl<I> Block<I, ()> {
    pub fn parse(kind: BlockKind, content: I) -> (r: Block<I, ()>)
        ensures
            r.kind == kind,
            r.content == content,
    {
        Block { kind, content, data: () }
    }
}

/// How a block is delimited.
#[derive(Debug, Clone, Copy, PartialEq, Eq, Structural)]
pub enum BlockKind {
    Nested(NestedBlockKind),
    Terminated(TerminatedBlockKind),
    Delimited(DelimitedBlockKind),
    Partial,
}

/// A block that a character ends.
#[derive(Debug, Clone, Copy, PartialEq, Eq, Structural)]
pub enum TerminatedBlockKind {
    Semicolon,
}

impl TerminatedBlockKind {
    pub fn tag(&self) -> (r: &'static str)
        ensures
            r@ == ";"@,
    {
        match self {
            TerminatedBlockKind::Semicolon => ";",
        }
    }

    pub fn as_char(&self) -> (c: char)
        ensures
            c == ';',
    {
        match self {
            TerminatedBlockKind::Semicolon => ';',
        }
    }
}

/// A block between quotes.
#[derive(Debug, Clone, Copy, PartialEq, Eq, Structural)]
pub enum DelimitedBlockKind {
    SingleQuotes,
    DoubleQuotes,
}

impl DelimitedBlockKind {
    pub fn delim(&self) -> (r: &'static str)
        ensures
            r@ == (match self {
                DelimitedBlockKind::SingleQuotes => "'"@,
                DelimitedBlockKind::DoubleQuotes => "\""@,
            }),
    {
        match self {
            DelimitedBlockKind::SingleQuotes => "'",
            DelimitedBlockKind::DoubleQuotes => "\"",
        }
    }

    pub fn escaped(&self) -> (r: &'static str)
        ensures
            r@ == (match self {
                DelimitedBlockKind::SingleQuotes => "'"@,
                DelimitedBlockKind::DoubleQuotes => "\""@,
            }),
    {
        match self {
            DelimitedBlockKind::SingleQuotes => "'",
            DelimitedBlockKind::DoubleQuotes => "\"",
        }
    }

    pub fn context(&self) -> (r: &'static str)
        ensures
            r@ == (match self {
                DelimitedBlockKind::SingleQuotes => "single:quotes:block"@,
                DelimitedBlockKind::DoubleQuotes => "double:quotes:block"@,
            }),
    {
        match self {
            DelimitedBlockKind::SingleQuotes => "single:quotes:block",
            DelimitedBlockKind::DoubleQuotes => "double:quotes:block",
        }
    }

    pub fn missing_close_context(&self) -> (r: &'static str)
        ensures
            r@ == (match self {
                DelimitedBlockKind::SingleQuotes => "single:quotes:block:missing-close"@,
                DelimitedBlockKind::DoubleQuotes => "double:quotes:block:missing-close"@,
            }),
    {
        match self {
            DelimitedBlockKind::SingleQuotes => "single:quotes:block:missing-close",
            DelimitedBlockKind::DoubleQuotes => "double:quotes:block:missing-close",
        }
    }
}

/// A block between brackets of one of four kinds.
#[derive(Debug, Clone, Copy, PartialEq, Eq, Structural)]
pub enum NestedBlockKind {
    Curly,
    Parens,
    Square,
    Angle,
}

/// The opening bracket of a nested block.
pub open spec fn open_char(k: NestedBlockKind) -> char {
    match k {
        NestedBlockKind::Curly => '{',
        NestedBlockKind::Parens => '(',
        NestedBlockKind::Square => '[',
        NestedBlockKind::Angle => '<',
    }
}

/// The closing bracket of a nested block.
pub open spec fn close_char(k: NestedBlockKind) -> char {
    match k {
        NestedBlockKind::Curly => '}',
        NestedBlockKind::Parens => ')',
        NestedBlockKind::Square => ']',
        NestedBlockKind::Angle => '>',
    }
}

impl NestedBlockKind {
    /// Whether a character closes some nested block.
    pub fn is_block_terminator(c: char) -> (b: bool)
        ensures
            b == exists|k: NestedBlockKind| close_char(k) == c,
    {
        proof {
            if c == '}' {
                assert(close_char(NestedBlockKind::Curly) == c);
            }
            if c == ')' {
                assert(close_char(NestedBlockKind::Parens) == c);
            }
            if c == ']' {
                assert(close_char(NestedBlockKind::Square) == c);
            }
            if c == '>' {
                assert(close_char(NestedBlockKind::Angle) == c);
            }
        }
        match c {
            '}' => true,
            ')' => true,
            ']' => true,
            '>' => true,
            _ => false,
        }
    }

    pub fn context(&self) -> (r: &'static str)
        ensures
            r@ == "block:"@ + seq![open_char(*self), close_char(*self)],
    {
        proof {
            reveal_strlit("block:{}");
            reveal_strlit("block:()");
            reveal_strlit("block:[]");
            reveal_strlit("block:<>");
            reveal_strlit("block:");
        }
        let r = match self {
            NestedBlockKind::Curly => "block:{}",
            NestedBlockKind::Parens => "block:()",
            NestedBlockKind::Square => "block:[]",
            NestedBlockKind::Angle => "block:<>",
        };
        assert(r@ =~= "block:"@ + seq![open_char(*self), close_char(*self)]);
        r
    }

    pub fn open_context(&self) -> (r: &'static str)
        ensures
            r@ == "block:open:"@ + seq![open_char(*self)],
    {
        proof {
            reveal_strlit("block:open:{");
            reveal_strlit("block:open:(");
            reveal_strlit("block:open:[");
            reveal_strlit("block:open:<");
            reveal_strlit("block:open:");
        }
        let r = match self {
            NestedBlockKind::Curly => "block:open:{",
            NestedBlockKind::Parens => "block:open:(",
            NestedBlockKind::Square => "block:open:[",
            NestedBlockKind::Angle => "block:open:<",
        };
        assert(r@ =~= "block:open:"@ + seq![open_char(*self)]);
        r
    }

    pub fn close_context(&self) -> (r: &'static str)
        ensures
            r@ == "block:close:"@ + seq![close_char(*self)],
    {
        proof {
            reveal_strlit("block:close:}");
            reveal_strlit("block:close:)");
            reveal_strlit("block:close:]");
            reveal_strlit("block:close:>");
            reveal_strlit("block:close:");
        }
        let r = match self {
            NestedBlockKind::Curly => "block:close:}",
            NestedBlockKind::Parens => "block:close:)",
            NestedBlockKind::Square => "block:close:]",
            NestedBlockKind::Angle => "block:close:>",
        };
        assert(r@ =~= "block:close:"@ + seq![close_char(*self)]);
        r
    }

    pub fn unpaired_closing_scope(&self) -> (r: &'static str)
        ensures
            r@ == "block:close-before-open:"@ + seq![close_char(*self)],
    {
        proof {
            reveal_strlit("block:close-before-open:}");
            reveal_strlit("block:close-before-open:)");
            reveal_strlit("block:close-before-open:]");
            reveal_strlit("block:close-before-open:>");
            reveal_strlit("block:close-before-open:");
        }
        let r = match self {
            NestedBlockKind::Curly => "block:close-before-open:}",
            NestedBlockKind::Parens => "block:close-before-open:)",
            NestedBlockKind::Square => "block:close-before-open:]",
            NestedBlockKind::Angle => "block:close-before-open:>",
        };
        assert(r@ =~= "block:close-before-open:"@ + seq![close_char(*self)]);
        r
    }

    pub fn open(&self) -> (r: &'static str)
        ensures
            r@ == seq![open_char(*self)],
    {
        proof {
            reveal_strlit("{");
            reveal_strlit("(");
            reveal_strlit("[");
            reveal_strlit("<");
        }
        let r = match self {
            NestedBlockKind::Curly => "{",
            NestedBlockKind::Parens => "(",
            NestedBlockKind::Square => "[",
            NestedBlockKind::Angle => "<",
        };
        assert(r@ =~= seq![open_char(*self)]);
        r
    }

    pub fn close(&self) -> (r: &'static str)
        ensures
            r@ == seq![close_char(*self)],
    {
        proof {
            reveal_strlit("}");
            reveal_strlit(")");
            reveal_strlit("]");
            reveal_strlit(">");
        }
        let r = match self {
            NestedBlockKind::Curly => "}",
            NestedBlockKind::Parens => ")",
            NestedBlockKind::Square => "]",
            NestedBlockKind::Angle => ">",
        };
        assert(r@ =~= seq![close_char(*self)]);
        r
    }

    pub fn open_as_char(&self) -> (c: char)
        ensures
            c == open_char(*self),
    {
        match self {
            NestedBlockKind::Curly => '{',
            NestedBlockKind::Parens => '(',
            NestedBlockKind::Square => '[',
            NestedBlockKind::Angle => '<',
        }
    }

    pub fn close_as_char(&self) -> (c: char)
        ensures
            c == close_char(*self),
    {
        match self {
            NestedBlockKind::Curly => '}',
            NestedBlockKind::Parens => ')',
            NestedBlockKind::Square => ']',
            NestedBlockKind::Angle => '>',
        }
    }
}

/// Each kind of nested block opens and closes with distinct brackets, and no two kinds share
/// one.
pub proof fn law_brackets_distinct(a: NestedBlockKind, b: NestedBlockKind)
    ensures
        open_char(a) != close_char(b),
        a != b ==> open_char(a) != open_char(b) && close_char(a) != close_char(b),
{
}

/// Text, with or without comments.
pub enum TextType<I> {
    Comment(I),
    NoComment(I),
}

impl TextType<String> {
    pub fn to_string(&self) -> (r: String)
        ensures
            r@ == (match self {
                TextType::Comment(i) => i@,
                TextType::NoComment(i) => i@,
            }),
    {
        match self {
            TextType::Comment(i) => i.clone(),
            TextType::NoComment(i) => i.clone(),
        }
    }
}

/// What a parse error report was found from: a context or a message.
pub enum ErrFind {
    Context(String),
    Message(String),
}

} // verus!
