//! Configuration documents: comments blanked out, the root scope read, its kind and version
//! checked, and its route scopes lexed.
use vstd::prelude::*;
use crate::bind::{root_scope_at, Reading};
use crate::block::{lemma_rough_bounds, rough_block_at, rough_block_end};
use crate::config::{BindConfig, Document};
use crate::error::{truncate_u32, MsgErr, ParseErrs};
use crate::errreport::{byte_len, context_error_from, is_context_error_from};
use crate::model::NestedBlockKind;
use crate::parse::{Outcome, Step};
use crate::point::{version_text, Version, VersionModel};
use crate::report::{Label, Range, Report, ReportKind};
use crate::scopes::{
    child_scopes_of, lex_child_scopes, lex_scopes, parent_view, parents_view, scope_view,
    scopes_at, scopes_view, LexParentScope, LexScope, LexScopeModel, ParentModel,
};
use crate::text::{
    char_at, chars_of, is_at, lemma_run_end, push_char, run_end, scan, str_eq, string_of,
    CharClass,
};

verus! {

/// `n` spaces.
pub open spec fn spaces(n: int) -> Seq<char> {
    Seq::new(n as nat, |k: int| ' ')
}

/// The text from `i` on with its comments blanked out, `comment` telling whether a comment is
/// open at `i`: a `#` opens a comment, a line break closes it and stays, and each character of
/// a comment becomes as many spaces as it has bytes.
pub open spec fn stripped_from(s: Seq<char>, i: int, comment: bool) -> Seq<char>
    decreases s.len() - i,
{
    if 0 <= i < s.len() {
        let inside = if comment {
            s[i] != '\n'
        } else {
            s[i] == '#'
        };
        (if inside {
            spaces(byte_len(s.subrange(i, i + 1)))
        } else {
            seq![s[i]]
        }) + stripped_from(s, i + 1, inside)
    } else {
        Seq::empty()
    }
}

/// A text with its comments blanked out.
pub open spec fn stripped(s: Seq<char>) -> Seq<char> {
    stripped_from(s, 0, false)
}

/// The UTF-8 encoding of two texts one after the other is their encodings one after the other.
proof fn lemma_encode_concat(a: Seq<char>, b: Seq<char>)
    ensures
        vstd::utf8::encode_utf8(a + b) == vstd::utf8::encode_utf8(a) + vstd::utf8::encode_utf8(b),
    decreases a.len(),
{
    if a.len() == 0 {
        assert(a + b =~= b);
        assert(vstd::utf8::encode_utf8(a) =~= Seq::<u8>::empty());
        assert(vstd::utf8::encode_utf8(b) =~= vstd::utf8::encode_utf8(a) + vstd::utf8::encode_utf8(b));
    } else {
        assert((a + b).drop_first() =~= a.drop_first() + b);
        assert((a + b)[0] == a[0]);
        lemma_encode_concat(a.drop_first(), b);
        assert(vstd::utf8::encode_utf8(a + b) =~= vstd::utf8::encode_utf8(a) + vstd::utf8::encode_utf8(
            b,
        ));
    }
}

/// Spaces take a byte each.
proof fn lemma_spaces_bytes(n: nat)
    ensures
        vstd::utf8::encode_utf8(spaces(n as int)).len() == n,
    decreases n,
{
    if n > 0 {
        let rest = spaces(n - 1);
        assert(spaces(n as int) =~= seq![' '] + rest);
        lemma_encode_concat(seq![' '], rest);
        assert((' ' as u32) == 32);
        assert(seq![' '].drop_first() =~= Seq::<char>::empty());
        assert(vstd::utf8::encode_utf8(seq![' '].drop_first()) =~= Seq::<u8>::empty());
        assert(vstd::utf8::encode_scalar(32).len() == 1);
        assert(vstd::utf8::encode_utf8(seq![' ']).len() == 1);
        lemma_spaces_bytes((n - 1) as nat);
    } else {
        assert(spaces(0) =~= Seq::<char>::empty());
    }
}

proof fn lemma_stripped_from_bytes(s: Seq<char>, i: int, comment: bool)
    requires
        0 <= i <= s.len(),
    ensures
        vstd::utf8::encode_utf8(stripped_from(s, i, comment)).len() == vstd::utf8::encode_utf8(
            s.subrange(i, s.len() as int),
        ).len(),
    decreases s.len() - i,
{
    if i < s.len() {
        let inside = if comment {
            s[i] != '\n'
        } else {
            s[i] == '#'
        };
        let one = s.subrange(i, i + 1);
        let tail = stripped_from(s, i + 1, inside);
        lemma_stripped_from_bytes(s, i + 1, inside);
        assert(s.subrange(i, s.len() as int) =~= one + s.subrange(i + 1, s.len() as int));
        lemma_encode_concat(one, s.subrange(i + 1, s.len() as int));
        assert(one.drop_first() =~= Seq::<char>::empty());
        assert(vstd::utf8::encode_utf8(one.drop_first()) =~= Seq::<u8>::empty());
        assert(vstd::utf8::encode_scalar(one[0] as u32).len() <= 4);
        assert(vstd::utf8::encode_utf8(one).len() <= 4);
        if inside {
            let sp = spaces(byte_len(one));
            lemma_encode_concat(sp, tail);
            lemma_spaces_bytes(vstd::utf8::encode_utf8(one).len());
        } else {
            assert(seq![s[i]] =~= one);
            lemma_encode_concat(one, tail);
        }
    } else {
        assert(s.subrange(i, s.len() as int) =~= Seq::<char>::empty());
    }
}

/// Blanking out comments keeps a text's length in bytes.
pub proof fn law_stripping_keeps_byte_length(s: Seq<char>)
    ensures
        vstd::utf8::encode_utf8(stripped(s)).len() == vstd::utf8::encode_utf8(s).len(),
{
    lemma_stripped_from_bytes(s, 0, false);
    assert(s.subrange(0, s.len() as int) =~= s);
}

proof fn lemma_stripped_shift(pre: Seq<char>, b: Seq<char>, j: int, st: bool)
    requires
        0 <= j <= b.len(),
    ensures
        stripped_from(pre + b, pre.len() + j, st) == stripped_from(b, j, st),
    decreases b.len() - j,
{
    let s = pre + b;
    if j < b.len() {
        let i = pre.len() + j;
        assert(s[i] == b[j]);
        assert(s.subrange(i, i + 1) =~= b.subrange(j, j + 1));
        let inside = if st {
            b[j] != '\n'
        } else {
            b[j] == '#'
        };
        lemma_stripped_shift(pre, b, j + 1, inside);
    }
}

proof fn lemma_stripped_split(a: Seq<char>, b: Seq<char>, i: int, c: bool)
    requires
        0 <= i <= a.len(),
    ensures
        stripped_from(a + seq!['\n'] + b, i, c) == stripped_from(a, i, c) + seq!['\n']
            + stripped_from(b, 0, false),
    decreases a.len() - i,
{
    let s = a + seq!['\n'] + b;
    if i < a.len() {
        assert(s[i] == a[i]);
        assert(s.subrange(i, i + 1) =~= a.subrange(i, i + 1));
        let inside = if c {
            a[i] != '\n'
        } else {
            a[i] == '#'
        };
        lemma_stripped_split(a, b, i + 1, inside);
        let piece = if inside {
            spaces(byte_len(a.subrange(i, i + 1)))
        } else {
            seq![a[i]]
        };
        assert(piece + (stripped_from(a, i + 1, inside) + seq!['\n'] + stripped_from(b, 0, false))
            =~= (piece + stripped_from(a, i + 1, inside)) + seq!['\n'] + stripped_from(b, 0, false));
    } else {
        assert(s[i] == '\n');
        assert(s =~= (a + seq!['\n']) + b);
        lemma_stripped_shift(a + seq!['\n'], b, 0, false);
        assert(stripped_from(a, i, c) =~= Seq::<char>::empty());
        assert(seq![s[i]] + stripped_from(b, 0, false) =~= stripped_from(a, i, c) + seq!['\n']
            + stripped_from(b, 0, false));
    }
}

/// Comments are blanked line by line: blanking out the comments of two lines joined by a line
/// break gives the two lines, each with its comments blanked out, joined by the line break.
pub proof fn law_stripping_goes_line_by_line(a: Seq<char>, b: Seq<char>)
    ensures
        stripped(a + seq!['\n'] + b) == stripped(a) + seq!['\n'] + stripped(b),
{
    lemma_stripped_split(a, b, 0, false);
}

proof fn lemma_stripped_from_no_hash(s: Seq<char>, i: int, c: bool)
    ensures
        !stripped_from(s, i, c).contains('#'),
    decreases s.len() - i,
{
    if 0 <= i < s.len() {
        let inside = if c {
            s[i] != '\n'
        } else {
            s[i] == '#'
        };
        lemma_stripped_from_no_hash(s, i + 1, inside);
        let piece = if inside {
            spaces(byte_len(s.subrange(i, i + 1)))
        } else {
            seq![s[i]]
        };
        let rest = stripped_from(s, i + 1, inside);
        assert(stripped_from(s, i, c) == piece + rest);
        if stripped_from(s, i, c).contains('#') {
            let k = choose|k: int| 0 <= k < (piece + rest).len() && (piece + rest)[k] == '#';
            if k < piece.len() {
                assert(piece[k] == '#');
            } else {
                assert(rest[k - piece.len()] == '#');
            }
        }
    }
}

/// Blanking out comments leaves no `#`: every comment, wherever it stands, is blanked.
pub proof fn law_stripping_leaves_no_comment_mark(s: Seq<char>)
    ensures
        !stripped(s).contains('#'),
{
    lemma_stripped_from_no_hash(s, 0, false);
}

/// Blanks out the comments of a text: from each `#` to the end of its line, every byte
/// becomes a space.
pub fn strip_comments(src: &str) -> (r: String)
    ensures
        r@ == stripped(src@),
{
    let cs = chars_of(src);
    let mut out = String::new();
    let mut comment = false;
    let mut i: usize = 0;
    while i < cs.len()
        invariant
            i <= cs@.len(),
            cs@ == src@,
            out@ + stripped_from(cs@, i as int, comment) == stripped(cs@),
        decreases cs@.len() - i,
    {
        let c = cs[i];
        let inside = if comment {
            c != '\n'
        } else {
            c == '#'
        };
        let ghost before = out@;
        let ghost piece = if inside {
            spaces(byte_len(cs@.subrange(i as int, i + 1)))
        } else {
            seq![c]
        };
        if inside {
            let one = string_of(&cs, i, i + 1);
            let n = one.as_str().len();
            let mut k: usize = 0;
            while k < n
                invariant
                    k <= n,
                    out@ == before + spaces(k as int),
                decreases n - k,
            {
                push_char(&mut out, ' ');
                k = k + 1;
                assert(out@ =~= before + spaces(k as int));
            }
            assert(n == byte_len(cs@.subrange(i as int, i + 1)));
        } else {
            push_char(&mut out, c);
        }
        assert(out@ == before + piece);
        assert(stripped_from(cs@, i as int, comment) == piece + stripped_from(cs@, i + 1, inside));
        assert(before + (piece + stripped_from(cs@, i + 1, inside)) =~= (before + piece)
            + stripped_from(cs@, i + 1, inside));
        comment = inside;
        i = i + 1;
    }
    out
}

/// The version of Bind documents that is read: 1.0.0.
pub open spec fn supported_version() -> VersionModel {
    VersionModel { major: 1, minor: 0, patch: 0, pre: Seq::empty(), build: Seq::empty() }
}

/// Why a document does not read.
pub enum DocFailure {
    /// A parse context failed at a position.
    Context(Seq<char>, int),
    /// The root is not a Bind: the span of its name.
    Kind(int, int),
    /// The Bind's version is not supported: the span of its version text, and the version.
    Version(int, int, VersionModel),
    /// The Bind's block does not read as route scopes.
    Scopes,
}

/// The route scopes of a Bind's block, each with its child scopes lexed; none where a scope is
/// not named `Route` or its children do not read.
pub open spec fn bind_scopes(ms: Seq<LexScopeModel>) -> Option<Seq<ParentModel>>
    decreases ms.len(),
{
    if ms.len() == 0 {
        Some(Seq::empty())
    } else {
        let first = if ms[0].name == "Route"@ {
            child_scopes_of(ms[0])
        } else {
            None
        };
        match (first, bind_scopes(ms.drop_first())) {
            (Some(p), Some(ps)) => Some(seq![p] + ps),
            _ => None,
        }
    }
}

/// A document, its comments already blanked out: white space, a root scope selector, white
/// space and a curly block, whose selector must name a `Bind` at version 1.0.0, and whose
/// block holds route scopes. It reads as those scopes, each with its child scopes; what follows
/// the block is not read.
pub open spec fn doc_at(t: Seq<char>) -> Result<Seq<ParentModel>, DocFailure> {
    match root_scope_at(t) {
        Reading::Failed(c, p) => Err(DocFailure::Context(c, p)),
        Reading::Read((name, v, vt), e) => {
            let b = run_end(t, e, CharClass::Space);
            if !char_at(t, b, '{') {
                Err(DocFailure::Context("root-scope:block"@, b))
            } else {
                match rough_block_at(t, NestedBlockKind::Curly, b) {
                    Step::Done(_, be) => {
                        let w = run_end(t, 0, CharClass::Space);
                        if name != "Bind"@ {
                            Err(DocFailure::Kind(w, w + name.len()))
                        } else {
                            if v == supported_version() {
                                match scopes_at(t.subrange(b + 1, be - 1)) {
                                    Some(ms) => match bind_scopes(ms) {
                                        Some(ps) => Ok(ps),
                                        None => Err(DocFailure::Scopes),
                                    },
                                    None => Err(DocFailure::Scopes),
                                }
                            } else {
                                Err(DocFailure::Version(w + name.len() + 9, e - 1, v))
                            }
                        }
                    },
                    _ => Err(DocFailure::Context("block:close:}"@, t.len() as int)),
                }
            }
        },
    }
}

/// Whether `x` is the error report with message `m` and one label `l` over `w` bytes from byte
/// `start`, reported against `src`.
pub open spec fn is_config_report(
    x: MsgErr,
    src: Seq<char>,
    m: Seq<char>,
    l: Seq<char>,
    start: int,
    w: int,
) -> bool {
    &&& x matches MsgErr::ParseErrs(e)
    &&& e.source matches Some(s) && s@ == src
    &&& e.report@.len() == 1
    &&& e.report@[0].kind == ReportKind::Error
    &&& e.report@[0].msg matches Some(t) && t@ == m
    &&& e.report@[0].location == (Range { start: 0, end: 0 })
    &&& e.report@[0].labels@.len() == 1
    &&& e.report@[0].labels@[0].msg matches Some(t) && t@ == l
    &&& start <= u32::MAX ==> e.report@[0].labels@[0].span.start == start
    &&& start + w <= u32::MAX ==> e.report@[0].labels@[0].span.end == start + w
}

/// The error for a document `src` (whose comments blanked out give `t`) that fails with `f`.
pub open spec fn doc_error(x: MsgErr, src: Seq<char>, t: Seq<char>, f: DocFailure) -> bool {
    match f {
        DocFailure::Context(c, p) => is_context_error_from(x, src, t, c, p),
        DocFailure::Scopes => x is ParseErrs,
        DocFailure::Kind(a, b) => is_config_report(
            x,
            src,
            "ConfigParser does not know how to process a '"@ + t.subrange(a, b) + "'"@,
            "Unrecognized Config Kind"@,
            byte_len(t.take(a)),
            byte_len(t.subrange(a, b)),
        ),
        DocFailure::Version(a, b, v) => is_config_report(
            x,
            src,
            "ConfigParser does not know how to process a Bind at version '"@ + version_text(v)
                + "'"@,
            "Unsupported Bind Config Version"@,
            byte_len(t.take(a)),
            byte_len(t.subrange(a, b)),
        ),
    }
}

fn config_report(message: String, label: &str, start: usize, width: usize, source: &str) -> (r: MsgErr)
    ensures
        is_config_report(r, source@, message@, label@, start as int, width as int),
{
    let mut labels: Vec<Label> = Vec::new();
    labels.push(
        Label {
            span: Range { start: truncate_u32(start), end: truncate_u32(start.saturating_add(width)) },
            msg: Some(label.to_string()),
            color: None,
            order: 0,
            priority: 0,
        },
    );
    let report = Report {
        kind: ReportKind::Error,
        code: None,
        msg: Some(message),
        note: None,
        help: None,
        location: Range { start: 0, end: 0 },
        labels,
    };
    MsgErr::ParseErrs(ParseErrs::from_report(report, source.to_string()))
}

/// The byte length of the characters of `cs` from `a` to `b`.
fn bytes_between(cs: &Vec<char>, a: usize, b: usize) -> (r: usize)
    requires
        a <= b <= cs@.len(),
    ensures
        r == byte_len(cs@.subrange(a as int, b as int)),
{
    let t = string_of(cs, a, b);
    t.as_str().len()
}

/// Whether two versions are the same.
fn same_version(a: &Version, b: &Version) -> (r: bool)
    ensures
        r == (a@ == b@),
{
    let r = a.major == b.major && a.minor == b.minor && a.patch == b.patch && str_eq(
        a.pre.as_str(),
        b.pre.as_str(),
    ) && str_eq(a.build.as_str(), b.build.as_str());
    r
}

/// The error for a scope of a Bind's block that is not a route scope.
fn unrecognized_scope(name: &str, source: &str) -> (r: ParseErrs)
    ensures
        r.report@.len() == 1,
{
    let mut m = "Unrecognized BindConfig selector: '".to_string();
    crate::text::push_str(&mut m, name);
    push_char(&mut m, '\'');
    let report = Report {
        kind: ReportKind::Error,
        code: None,
        msg: Some(m),
        note: None,
        help: None,
        location: Range { start: 0, end: 0 },
        labels: Vec::new(),
    };
    ParseErrs::from_report(report, source.to_string())
}

/// The reports of an error.
fn reports_of(x: MsgErr) -> (r: ParseErrs) {
    match x {
        MsgErr::ParseErrs(p) => p,
        MsgErr::Status { .. } => ParseErrs { report: Vec::new(), source: None },
    }
}

/// The route scopes of a Bind's block, each with its child scopes lexed; where one is not
/// named `Route` or its children do not read, the reports of all such scopes.
fn bind_scopes_exec(scopes: Vec<LexScope>, source: &str) -> (r: Result<Vec<LexParentScope>, MsgErr>)
    ensures
        match bind_scopes(scopes_view(scopes@)) {
            Some(ps) => r matches Ok(v) && parents_view(v@) == ps,
            None => r matches Err(x) && x is ParseErrs,
        },
{
    proof {
        reveal_strlit("Route");
    }
    let ghost all = scopes_view(scopes@);
    let mut pending = scopes;
    let mut out: Vec<LexParentScope> = Vec::new();
    let mut errs: Vec<ParseErrs> = Vec::new();
    while pending.len() > 0
        invariant
            bind_scopes(all) == (if errs@.len() == 0 {
                match bind_scopes(scopes_view(pending@)) {
                    Some(ps) => Some(parents_view(out@) + ps),
                    None => None,
                }
            } else {
                None
            }),
        decreases pending@.len(),
    {
        let ghost before = scopes_view(pending@);
        let ghost done = parents_view(out@);
        let sc = pending.remove(0);
        proof {
            assert(before[0] == scope_view(sc));
            assert(before.drop_first() =~= scopes_view(pending@));
        }
        if str_eq(sc.selector.selector.name.as_str(), "Route") {
            match lex_child_scopes(sc) {
                Ok(p) => {
                    out.push(p);
                    proof {
                        assert(parents_view(out@) =~= done.push(parent_view(p)));
                        match bind_scopes(scopes_view(pending@)) {
                            Some(ps) => {
                                assert(done + (seq![parent_view(p)] + ps) =~= done.push(
                                    parent_view(p),
                                ) + ps);
                            },
                            None => {},
                        }
                    }
                },
                Err(x) => {
                    errs.push(reports_of(x));
                },
            }
        } else {
            errs.push(unrecognized_scope(sc.selector.selector.name.as_str(), source));
        }
    }
    if errs.len() > 0 {
        return Err(MsgErr::ParseErrs(ParseErrs::fold(errs)));
    }
    proof {
        assert(parents_view(out@) + Seq::<ParentModel>::empty() =~= parents_view(out@));
    }
    Ok(out)
}

/// Reads a configuration document: its comments are blanked out, then its root scope is
/// read, which must be a `Bind` at version 1.0.0; the Bind's configuration is the route scopes
/// of the root's block, each with its child scopes. Errors are reported against `src`.
pub fn doc(src: &str) -> (r: Result<Document, MsgErr>)
    ensures
        match doc_at(stripped(src@)) {
            Ok(ps) => r matches Ok(Document::BindConfig(c)) && c.scopes_model() == ps,
            Err(f) => r matches Err(x) && doc_error(x, src@, stripped(src@), f),
        },
{
    proof {
        reveal_strlit("Bind");
        reveal_strlit("1.0.0");
        reveal_strlit("'");
        reveal_strlit("ConfigParser does not know how to process a '");
        reveal_strlit("ConfigParser does not know how to process a Bind at version '");
    }
    let text = strip_comments(src);
    let input = text.as_str();
    let cs = chars_of(input);
    let (w, n, ve, v) = match crate::bind::root_scope_exec(input, &cs, src) {
        Err(x) => {
            return Err(x);
        },
        Ok(t) => t,
    };
    let len = cs.len();
    assert(ve < len);
    proof {
        lemma_run_end(cs@, ve + 1, CharClass::Space);
    }
    let b = scan(&cs, ve + 1, CharClass::Space);
    if !is_at(&cs, b, '{') {
        return Err(context_error_from(input, &cs, b, "root-scope:block", src));
    }
    let be = match rough_block_end(&cs, b, NestedBlockKind::Curly) {
        Outcome::Done(_, be) => be,
        _ => {
            return Err(context_error_from(input, &cs, cs.len(), "block:close:}", src));
        },
    };
    proof {
        lemma_rough_bounds(cs@, NestedBlockKind::Curly, b + 1, 1);
    }
    let name = string_of(&cs, w, n);
    if !str_eq(name.as_str(), "Bind") {
        let mut m = "ConfigParser does not know how to process a '".to_string();
        crate::text::push_str(&mut m, name.as_str());
        push_char(&mut m, '\'');
        let start = bytes_between(&cs, 0, w);
        let width = bytes_between(&cs, w, n);
        proof {
            assert(cs@.subrange(0, w as int) =~= cs@.take(w as int));
            assert(m@ =~= "ConfigParser does not know how to process a '"@ + name@ + "'"@);
        }
        return Err(config_report(m, "Unrecognized Config Kind", start, width, src));
    }
    proof {
        assert("1.0.0"@ =~= version_text(supported_version()));
    }
    let one = match Version::from_str("1.0.0") {
        Ok(x) => x,
        Err(_) => {
            return Err(MsgErr::from_500("could not parse version"));
        },
    };
    if !same_version(&v, &one) {
        let mut m = "ConfigParser does not know how to process a Bind at version '".to_string();
        let vt = v.to_string();
        crate::text::push_str(&mut m, vt.as_str());
        push_char(&mut m, '\'');
        let start = bytes_between(&cs, 0, n + 9);
        let width = bytes_between(&cs, n + 9, ve);
        proof {
            assert(cs@.subrange(0, n + 9) =~= cs@.take(n + 9));
            assert(m@ =~= "ConfigParser does not know how to process a Bind at version '"@
                + version_text(v@) + "'"@);
        }
        return Err(config_report(m, "Unsupported Bind Config Version", start, width, src));
    }
    let body = string_of(&cs, b + 1, be - 1);
    let scopes = match lex_scopes(body.as_str()) {
        Ok(v) => v,
        Err(x) => {
            return Err(x);
        },
    };
    match bind_scopes_exec(scopes, src) {
        Ok(v) => Ok(Document::BindConfig(BindConfig::new(v))),
        Err(x) => Err(x),
    }
}

/// Reads the Bind configuration of a document, as `doc` does.
pub fn bind_config(src: &str) -> (r: Result<BindConfig, MsgErr>)
    ensures
        match doc_at(stripped(src@)) {
            Ok(ps) => r matches Ok(c) && c.scopes_model() == ps,
            Err(f) => r matches Err(x) && doc_error(x, src@, stripped(src@), f),
        },
{
    match doc(src) {
        Ok(Document::BindConfig(c)) => Ok(c),
        Err(x) => Err(x),
    }
}

} // verus!
