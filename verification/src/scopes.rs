//! The scopes of a configuration block: each a selector with its filters, an optional rough
//! pipeline step, and a curly block or a block up to a semicolon.
use vstd::prelude::*;
use crate::bind::{filters_view, scope_selector_at, scope_selector_exec, span_string, span_text};
use crate::block::{
    block_at, block_end, lemma_block_bounds, lemma_rough_bounds, rough_block_at, rough_block_end,
    terminated_block_end, terminated_scan, LexBlock,
};
use crate::error::MsgErr;
use crate::errreport::context_error;
use crate::model::{
    opt_string_view, Block, BlockKind, DelimitedBlockKind, LexScopeSelector, NestedBlockKind, Scope,
    ScopeFiltersDef, ScopeSelectorAndFiltersDef, TerminatedBlockKind,
};
use crate::parse::{Outcome, Step};
use crate::text::{
    alpha, chars_of, has_at, is_alpha, lemma_run_end, run_end, scan, starts_at, string_of,
    CharClass,
};

verus! {

/// A lexed scope: its selector and filters, its pipeline step, and its block.
pub type LexScope = Scope<ScopeSelectorAndFiltersDef<LexScopeSelector<String>, String>, LexBlock, String>;

/// What a lexed scope holds, as plain values.
pub struct LexScopeModel {
    pub name: Seq<char>,
    pub path: Option<Seq<char>>,
    pub children: Option<Seq<char>>,
    pub filters: Seq<(Seq<char>, Option<Seq<char>>)>,
    pub step: Option<Seq<char>>,
    pub kind: BlockKind,
    pub content: Seq<char>,
}

/// The model of a lexed scope.
pub open spec fn scope_view(sc: LexScope) -> LexScopeModel {
    LexScopeModel {
        name: sc.selector.selector.name@,
        path: opt_string_view(sc.selector.selector.path),
        children: opt_string_view(sc.selector.selector.children),
        filters: filters_view(sc.selector.filters.filters@),
        step: opt_string_view(sc.pipeline_step),
        kind: sc.block.kind,
        content: sc.block.content@,
    }
}

/// The kind of block that the character `c` opens inside a pipeline step, if any.
pub open spec fn surround_kind(c: char) -> Option<BlockKind> {
    if c == '{' {
        Some(BlockKind::Nested(NestedBlockKind::Curly))
    } else if c == '<' {
        Some(BlockKind::Nested(NestedBlockKind::Angle))
    } else if c == '(' {
        Some(BlockKind::Nested(NestedBlockKind::Parens))
    } else if c == '[' {
        Some(BlockKind::Nested(NestedBlockKind::Square))
    } else if c == '"' {
        Some(BlockKind::Delimited(DelimitedBlockKind::DoubleQuotes))
    } else if c == '\'' {
        Some(BlockKind::Delimited(DelimitedBlockKind::SingleQuotes))
    } else {
        None
    }
}

/// The end of a rough pipeline step from `j`: any number of `-`, `=` or `+` each followed by
/// a block, then `->` or `=>`.
pub open spec fn rough_step_from(s: Seq<char>, j: int) -> Option<int>
    decreases s.len() - j,
{
    if 0 <= j && j + 1 < s.len() && (s[j] == '-' || s[j] == '=' || s[j] == '+') && surround_kind(
        s[j + 1],
    ) is Some {
        match block_at(s, surround_kind(s[j + 1])->0, j + 1) {
            Step::Done(_, e) => if j + 1 < e <= s.len() {
                rough_step_from(s, e)
            } else {
                None
            },
            _ => None,
        }
    } else if starts_at(s, j, "->"@) || starts_at(s, j, "=>"@) {
        Some(j + 2)
    } else {
        None
    }
}

/// The scope at the start of `t`, with where it ends: a selector, its filters, white space,
/// and either a rough pipeline step, white space and a curly block, or, where no curly block
/// follows the step, a block from the step up to the next semicolon.
pub open spec fn scope_at(t: Seq<char>) -> Option<(LexScopeModel, int)> {
    if !(t.len() > 0 && (t[0] == '*' || is_alpha(t[0]) || t[0] == '<')) {
        None
    } else {
        match scope_selector_at(t) {
            None => None,
            Some(((a, n), ch, path, e1)) => match crate::bind::filters_at(t, e1) {
                None => None,
                Some((fs, e2)) => {
                    let e3 = run_end(t, e2, CharClass::Space);
                    if e3 == e2 {
                        None
                    } else {
                        match rough_step_from(t, e3) {
                            None => None,
                            Some(sa) => {
                                let b = run_end(t, sa, CharClass::Space);
                                let m = LexScopeModel {
                                    name: t.subrange(a, n),
                                    path: span_text(t, path),
                                    children: span_text(t, ch),
                                    filters: fs,
                                    step: None,
                                    kind: BlockKind::Terminated(TerminatedBlockKind::Semicolon),
                                    content: Seq::empty(),
                                };
                                match rough_block_at(t, NestedBlockKind::Curly, b) {
                                    Step::Done(_, be) => if b > sa {
                                        Some(
                                            (
                                                LexScopeModel {
                                                    step: Some(t.subrange(e3, sa)),
                                                    kind: BlockKind::Nested(NestedBlockKind::Curly),
                                                    content: t.subrange(b + 1, be - 1),
                                                    ..m
                                                },
                                                be,
                                            ),
                                        )
                                    } else {
                                        None
                                    },
                                    Step::Fail => None,
                                    Step::Miss => match (
                                        terminated_scan(t, ';', sa),
                                        terminated_scan(t, ';', e3),
                                    ) {
                                        (Step::Done(_, _), Step::Done(_, te)) => Some(
                                            (LexScopeModel { content: t.subrange(e3, te - 1), ..m }, te),
                                        ),
                                        _ => None,
                                    },
                                }
                            },
                        }
                    }
                },
            },
        }
    }
}

/// The scopes of `s`, separated and surrounded by white space, up to its end; none where a
/// scope does not read or a `}` stands where a scope should start.
pub open spec fn scopes_at(s: Seq<char>) -> Option<Seq<LexScopeModel>>
    decreases s.len(),
{
    let w = run_end(s, 0, CharClass::Space);
    if !(0 <= w < s.len()) {
        Some(Seq::empty())
    } else if s[w] == '}' {
        None
    } else {
        match scope_at(s.subrange(w, s.len() as int)) {
            None => None,
            Some((m, e)) => if 0 < e <= s.len() - w {
                match scopes_at(s.subrange(w + e, s.len() as int)) {
                    Some(ms) => Some(seq![m] + ms),
                    None => None,
                }
            } else {
                None
            },
        }
    }
}

fn surround_kind_exec(c: char) -> (r: Option<BlockKind>)
    ensures
        r == surround_kind(c),
{
    if c == '{' {
        Some(BlockKind::Nested(NestedBlockKind::Curly))
    } else if c == '<' {
        Some(BlockKind::Nested(NestedBlockKind::Angle))
    } else if c == '(' {
        Some(BlockKind::Nested(NestedBlockKind::Parens))
    } else if c == '[' {
        Some(BlockKind::Nested(NestedBlockKind::Square))
    } else if c == '"' {
        Some(BlockKind::Delimited(DelimitedBlockKind::DoubleQuotes))
    } else if c == '\'' {
        Some(BlockKind::Delimited(DelimitedBlockKind::SingleQuotes))
    } else {
        None
    }
}

fn rough_step_exec(cs: &Vec<char>, j: usize) -> (r: Option<usize>)
    requires
        j <= cs@.len(),
    ensures
        match rough_step_from(cs@, j as int) {
            None => r is None,
            Some(e) => r == Some(e as usize) && j < e <= cs@.len(),
        },
{
    let len = cs.len();
    let mut k = j;
    loop
        invariant
            j <= k <= cs@.len(),
            len == cs@.len(),
            rough_step_from(cs@, j as int) == rough_step_from(cs@, k as int),
        decreases cs@.len() - k,
    {
        if len - k > 1 && (cs[k] == '-' || cs[k] == '=' || cs[k] == '+') {
            match surround_kind_exec(cs[k + 1]) {
                Some(kind) => {
                    proof {
                        lemma_block_bounds(cs@, kind, k + 1);
                    }
                    match block_end(cs, k + 1, kind) {
                        Outcome::Done(_, e) => {
                            k = e;
                            continue;
                        },
                        _ => {
                            return None;
                        },
                    }
                },
                None => {},
            }
        }
        proof {
            reveal_strlit("->");
            reveal_strlit("=>");
        }
        if has_at(cs, k, "->") || has_at(cs, k, "=>") {
            return Some(k + 2);
        } else {
            return None;
        }
    }
}

/// The scope at the start of `input`, with the text after it: its selector and filters, its
/// pipeline step and its block. Where it does not read, an error.
pub fn lex_scope(input: &str) -> (r: Result<(String, LexScope), MsgErr>)
    ensures
        match scope_at(input@) {
            None => r matches Err(x) && x is ParseErrs,
            Some((m, e)) => 0 < e <= input@.len() && (r matches Ok((rest, sc)) && scope_view(sc)
                == m && rest@ == input@.subrange(e, input@.len() as int)),
        },
{
    let cs = chars_of(input);
    if !(cs.len() > 0 && (cs[0] == '*' || alpha(cs[0]) || cs[0] == '<')) {
        return Err(context_error(input, &cs, 0, "scope"));
    }
    let ((a, n), ch, path, e1) = match scope_selector_exec(&cs) {
        None => {
            return Err(context_error(input, &cs, 0, "parsed-scope-selector"));
        },
        Some(x) => x,
    };
    let (filters, e2) = match crate::bind::filters_at_exec(&cs, e1) {
        None => {
            return Err(context_error(input, &cs, e1, "scope-filter"));
        },
        Some(x) => x,
    };
    proof {
        lemma_run_end(cs@, e2 as int, CharClass::Space);
    }
    let e3 = scan(&cs, e2, CharClass::Space);
    if e3 == e2 {
        return Err(context_error(input, &cs, e2, "scope"));
    }
    let sa = match rough_step_exec(&cs, e3) {
        None => {
            return Err(context_error(input, &cs, e3, "scope"));
        },
        Some(x) => x,
    };
    proof {
        lemma_run_end(cs@, sa as int, CharClass::Space);
    }
    let b = scan(&cs, sa, CharClass::Space);
    let selector = ScopeSelectorAndFiltersDef::new(
        LexScopeSelector::new(string_of(&cs, a, n), span_string(&cs, path), span_string(&cs, ch)),
        ScopeFiltersDef { filters },
    );
    match rough_block_end(&cs, b, NestedBlockKind::Curly) {
        Outcome::Done(_, be) => {
            if b == sa {
                return Err(context_error(input, &cs, sa, "scope"));
            }
            proof {
                lemma_rough_bounds(cs@, NestedBlockKind::Curly, b + 1, 1);
            }
            let block: LexBlock = Block {
                kind: BlockKind::Nested(NestedBlockKind::Curly),
                content: string_of(&cs, b + 1, be - 1),
                data: (),
            };
            let step = string_of(&cs, e3, sa);
            Ok((string_of(&cs, be, cs.len()), Scope::new_with_pipeline_step(selector, block, Some(step))))
        },
        Outcome::Miss => {
            match terminated_block_end(&cs, sa, TerminatedBlockKind::Semicolon) {
                Outcome::Done(_, _) => {},
                _ => {
                    return Err(context_error(input, &cs, sa, "scope"));
                },
            }
            proof {
                lemma_block_bounds(cs@, BlockKind::Terminated(TerminatedBlockKind::Semicolon), e3 as int);
            }
            match terminated_block_end(&cs, e3, TerminatedBlockKind::Semicolon) {
                Outcome::Done(_, te) => {
                    let block: LexBlock = Block {
                        kind: BlockKind::Terminated(TerminatedBlockKind::Semicolon),
                        content: string_of(&cs, e3, te - 1),
                        data: (),
                    };
                    Ok((string_of(&cs, te, cs.len()), Scope::new_with_pipeline_step(selector, block, None)))
                },
                _ => Err(context_error(input, &cs, e3, "scope")),
            }
        },
        Outcome::Fail => Err(context_error(input, &cs, cs.len(), "block:close:}")),
    }
}

/// The scopes of `input`, separated and surrounded by white space, up to its end. Where one
/// does not read, or a `}` stands where a scope should start, an error.
pub fn lex_scopes(input: &str) -> (r: Result<Vec<LexScope>, MsgErr>)
    ensures
        match scopes_at(input@) {
            None => r matches Err(x) && x is ParseErrs,
            Some(ms) => r matches Ok(v) && v@.map_values(|sc: LexScope| scope_view(sc)) == ms,
        },
{
    let mut scopes: Vec<LexScope> = Vec::new();
    let mut rest = input.to_string();
    loop
        invariant
            scopes_at(input@) == match scopes_at(rest@) {
                Some(ms) => Some(scopes@.map_values(|sc: LexScope| scope_view(sc)) + ms),
                None => None,
            },
        decreases rest@.len(),
    {
        let cs = chars_of(rest.as_str());
        proof {
            lemma_run_end(cs@, 0, CharClass::Space);
        }
        let w = scan(&cs, 0, CharClass::Space);
        if w >= cs.len() {
            assert(scopes@.map_values(|sc: LexScope| scope_view(sc)) + Seq::<LexScopeModel>::empty()
                =~= scopes@.map_values(|sc: LexScope| scope_view(sc)));
            return Ok(scopes);
        }
        if cs[w] == '}' {
            return Err(context_error(rest.as_str(), &cs, w, "parsed-scopes"));
        }
        let tail = string_of(&cs, w, cs.len());
        match lex_scope(tail.as_str()) {
            Err(x) => {
                return Err(x);
            },
            Ok((next, sc)) => {
                let ghost before = scopes@.map_values(|sc: LexScope| scope_view(sc));
                proof {
                    let (_, e) = scope_at(tail@)->0;
                    assert(next@ =~= rest@.subrange(w + e, rest@.len() as int));
                }
                scopes.push(sc);
                proof {
                    assert(scopes@.map_values(|sc: LexScope| scope_view(sc)) =~= before.push(
                        scope_view(sc),
                    ));
                    match scopes_at(next@) {
                        Some(ms) => {
                            assert(before + (seq![scope_view(sc)] + ms) =~= before.push(
                                scope_view(sc),
                            ) + ms);
                        },
                        None => {},
                    }
                }
                rest = next;
            },
        }
    }
}

/// A scope whose block has been lexed into the scopes it holds.
pub type LexParentScope = Scope<
    ScopeSelectorAndFiltersDef<LexScopeSelector<String>, String>,
    Vec<LexScope>,
    String,
>;

/// What a scope with lexed child scopes holds, as plain values.
pub struct ParentModel {
    pub name: Seq<char>,
    pub path: Option<Seq<char>>,
    pub children: Option<Seq<char>>,
    pub filters: Seq<(Seq<char>, Option<Seq<char>>)>,
    pub step: Option<Seq<char>>,
    pub block: Seq<LexScopeModel>,
}

/// The models of lexed scopes.
pub open spec fn scopes_view(v: Seq<LexScope>) -> Seq<LexScopeModel> {
    v.map_values(|sc: LexScope| scope_view(sc))
}

/// The models of scopes with lexed child scopes.
pub open spec fn parents_view(v: Seq<LexParentScope>) -> Seq<ParentModel> {
    v.map_values(|p: LexParentScope| parent_view(p))
}

/// The model of a scope with lexed child scopes.
pub open spec fn parent_view(p: LexParentScope) -> ParentModel {
    ParentModel {
        name: p.selector.selector.name@,
        path: opt_string_view(p.selector.selector.path),
        children: opt_string_view(p.selector.selector.children),
        filters: filters_view(p.selector.filters.filters@),
        step: opt_string_view(p.pipeline_step),
        block: scopes_view(p.block@),
    }
}

/// The child scopes of a lexed scope. Where its selector names children (`Route<Http>`), the
/// one child is the scope they select, with the parent's filters and block, and the parent
/// keeps no filters and no step; the children must read as a whole scope selector. Else the
/// children are the scopes of its block.
pub open spec fn child_scopes_of(p: LexScopeModel) -> Option<ParentModel> {
    match p.children {
        Some(c) => match scope_selector_at(c) {
            Some(((a, n), ch, path, e)) => if e == c.len() {
                Some(
                    ParentModel {
                        name: p.name,
                        path: p.path,
                        children: p.children,
                        filters: Seq::empty(),
                        step: None,
                        block: seq![
                            LexScopeModel {
                                name: c.subrange(a, n),
                                path: span_text(c, path),
                                children: span_text(c, ch),
                                filters: p.filters,
                                step: None,
                                kind: p.kind,
                                content: p.content,
                            },
                        ],
                    },
                )
            } else {
                None
            },
            None => None,
        },
        None => match scopes_at(p.content) {
            Some(ms) => Some(
                ParentModel {
                    name: p.name,
                    path: p.path,
                    children: p.children,
                    filters: p.filters,
                    step: p.step,
                    block: ms,
                },
            ),
            None => None,
        },
    }
}

/// Lexes the child scopes of a scope, as `child_scopes_of` says. Where they do not read, an
/// error.
pub fn lex_child_scopes(parent: LexScope) -> (r: Result<LexParentScope, MsgErr>)
    ensures
        match child_scopes_of(scope_view(parent)) {
            Some(m) => r matches Ok(p) && parent_view(p) == m,
            None => r matches Err(x) && x is ParseErrs,
        },
{
    let Scope { selector, pipeline_step, block } = parent;
    let ScopeSelectorAndFiltersDef { selector: sel, filters } = selector;
    let LexScopeSelector { name, path, children } = sel;
    match children {
        Some(c) => {
            let cs = chars_of(c.as_str());
            match scope_selector_exec(&cs) {
                Some(((a, n), ch, p, e)) => {
                    if e != cs.len() {
                        return Err(context_error(c.as_str(), &cs, e, "parsed-scope-selector"));
                    }
                    let child_sel = LexScopeSelector::new(
                        string_of(&cs, a, n),
                        span_string(&cs, p),
                        span_string(&cs, ch),
                    );
                    let child: LexScope = Scope::new(ScopeSelectorAndFiltersDef::new(child_sel, filters), block);
                    let mut kids: Vec<LexScope> = Vec::new();
                    kids.push(child);
                    let parent_sel = ScopeSelectorAndFiltersDef::new(
                        LexScopeSelector::new(name, path, Some(c)),
                        ScopeFiltersDef { filters: Vec::new() },
                    );
                    let r: LexParentScope = Scope::new(parent_sel, kids);
                    proof {
                        assert(scopes_view(r.block@) =~= seq![scope_view(r.block@[0])]);
                        assert(filters_view(r.selector.filters.filters@) =~= Seq::empty());
                    }
                    Ok(r)
                },
                None => Err(context_error(c.as_str(), &cs, 0, "parsed-scope-selector")),
            }
        },
        None => {
            match lex_scopes(block.content.as_str()) {
                Ok(scopes) => {
                    let parent_sel = ScopeSelectorAndFiltersDef::new(
                        LexScopeSelector::new(name, path, None),
                        filters,
                    );
                    Ok(Scope::new_with_pipeline_step(parent_sel, scopes, pipeline_step))
                },
                Err(x) => Err(x),
            }
        },
    }
}

} // verus!
