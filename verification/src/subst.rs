//! Texts with `${name}` variables in them: reading them into chunks and resolving the
//! variables against a scope.
use vstd::prelude::*;
use crate::env::Env;
use crate::error::{MsgErr, ParseErrs};
use crate::parse::{agrees, within, Outcome, Step};
use crate::point::Trace;
use crate::text::{
    char_at, chars_of, is_at, is_lower, lemma_len_fits, lemma_run_end, lower, push_str, run_end,
    scan, string_of, CharClass,
};

verus! {

/// The abstract value of a chunk.
pub enum ChunkModel {
    Var(Seq<char>),
    Text(Seq<char>),
}

/// A piece of a text: a variable reference, by the name inside `${...}`, or plain text.
#[derive(Debug, PartialEq, Eq)]
pub enum Chunk {
    Var(String),
    Text(String),
}

impl View for Chunk {
    type V = ChunkModel;

    open spec fn view(&self) -> ChunkModel {
        match self {
            Chunk::Var(v) => ChunkModel::Var(v@),
            Chunk::Text(t) => ChunkModel::Text(t@),
        }
    }
}

impl Chunk {
    /// The text this chunk was read from, without the `${` and `}` of a variable.
    pub fn span(&self) -> (r: &String)
        ensures
            r@ == (match self@ {
                ChunkModel::Var(v) => v,
                ChunkModel::Text(t) => t,
            }),
    {
        match self {
            Chunk::Var(var) => var,
            Chunk::Text(text) => text,
        }
    }

    /// The length in bytes of the text this chunk was read from, `${` and `}` included.
    pub fn len(&self) -> (r: usize)
        requires
            self matches Chunk::Var(v) ==> vstd::utf8::encode_utf8(v@).len() + 3 <= usize::MAX,
            self matches Chunk::Text(t) ==> vstd::utf8::encode_utf8(t@).len() <= usize::MAX,
        ensures
            self matches Chunk::Var(v) ==> r == vstd::utf8::encode_utf8(v@).len() + 3,
            self matches Chunk::Text(t) ==> r == vstd::utf8::encode_utf8(t@).len(),
    {
        match self {
            Chunk::Var(var) => {
                let n = var.as_str().len();
                assert(n == vstd::utf8::encode_utf8(var@).len());
                n + 3
            },
            Chunk::Text(text) => text.as_str().len(),
        }
    }
}

/// The text of a chunk as written.
pub open spec fn chunk_text(c: ChunkModel) -> Seq<char> {
    match c {
        ChunkModel::Var(v) => seq!['$', '{'] + v + seq!['}'],
        ChunkModel::Text(t) => t,
    }
}

/// A chunk at `i`: a variable `${name}` (a lowercase letter, then lowercase letters, digits,
/// dashes and dots), where a `$` that opens no well formed reference is a failure; else a
/// non-empty run of the text class.
pub open spec fn chunk_at(s: Seq<char>, i: int, text: CharClass) -> Step<ChunkModel> {
    if char_at(s, i, '$') {
        if char_at(s, i + 1, '{') && i + 2 < s.len() && is_lower(s[i + 2]) {
            let e = run_end(s, i + 3, CharClass::Domain);
            if char_at(s, e, '}') {
                Step::Done(ChunkModel::Var(s.subrange(i + 2, e)), e + 1)
            } else {
                Step::Fail
            }
        } else {
            Step::Fail
        }
    } else {
        let e = run_end(s, i, text);
        if e > i {
            Step::Done(ChunkModel::Text(s.subrange(i, e)), e)
        } else {
            Step::Miss
        }
    }
}

/// The chunks from `i` on, as many as match; `None` where one fails.
pub open spec fn chunks_from(s: Seq<char>, i: int, text: CharClass) -> Option<
    (Seq<ChunkModel>, int),
>
    decreases s.len() - i,
{
    match chunk_at(s, i, text) {
        Step::Done(c, e) => if i < e <= s.len() {
            match chunks_from(s, e, text) {
                Some((cs, f)) => Some((seq![c] + cs, f)),
                None => None,
            }
        } else {
            None
        },
        Step::Miss => Some((Seq::empty(), i)),
        Step::Fail => None,
    }
}

/// The chunks read from the start of a text, and where they end: at least one chunk.
pub open spec fn subst_of(s: Seq<char>, text: CharClass) -> Option<(Seq<ChunkModel>, int)> {
    match chunks_from(s, 0, text) {
        Some((cs, e)) => if cs.len() > 0 {
            Some((cs, e))
        } else {
            None
        },
        None => None,
    }
}

/// A text with variables read from its start.
pub struct Subst {
    pub chunks: Vec<Chunk>,
    pub trace: Trace,
}

pub open spec fn view_chunks(cs: Seq<Chunk>) -> Seq<ChunkModel> {
    cs.map_values(|c: Chunk| c@)
}

/// The text of the first `n` chunks as written.
pub open spec fn chunks_text(cs: Seq<ChunkModel>, n: int) -> Seq<char>
    decreases n,
{
    if n <= 0 {
        Seq::empty()
    } else {
        chunks_text(cs, n - 1) + chunk_text(cs[n - 1])
    }
}

/// The text of the first `n` chunks with their variables looked up in `vars`; `None` where a
/// variable has no value.
pub open spec fn chunks_resolved(
    cs: Seq<ChunkModel>,
    n: int,
    vars: spec_fn(Seq<char>) -> Option<Seq<char>>,
) -> Option<Seq<char>>
    decreases n,
{
    if n <= 0 {
        Some(Seq::empty())
    } else {
        match (chunks_resolved(cs, n - 1, vars), cs[n - 1]) {
            (Some(t), ChunkModel::Text(x)) => Some(t + x),
            (Some(t), ChunkModel::Var(v)) => match vars(v) {
                Some(x) => Some(t + x),
                None => None,
            },
            _ => None,
        }
    }
}

proof fn lemma_chunks_resolved_prefix(
    cs: Seq<ChunkModel>,
    c: ChunkModel,
    n: int,
    vars: spec_fn(Seq<char>) -> Option<Seq<char>>,
)
    requires
        n <= cs.len(),
    ensures
        chunks_resolved(cs.push(c), n, vars) == chunks_resolved(cs, n, vars),
    decreases n,
{
    if n > 0 {
        lemma_chunks_resolved_prefix(cs, c, n - 1, vars);
        assert(cs.push(c)[n - 1] == cs[n - 1]);
    }
}

/// Resolving chunks goes chunk by chunk: the text of chunks with one more chunk after them is
/// their text followed by that chunk's text, or by its variable's value; it fails where the
/// chunks fail or the variable has no value.
pub proof fn law_resolving_appends_each_chunk(
    cs: Seq<ChunkModel>,
    c: ChunkModel,
    vars: spec_fn(Seq<char>) -> Option<Seq<char>>,
)
    ensures
        chunks_resolved(cs.push(c), cs.len() + 1int, vars) == match (
            chunks_resolved(cs, cs.len() as int, vars),
            c,
        ) {
            (Some(t), ChunkModel::Text(x)) => Some(t + x),
            (Some(t), ChunkModel::Var(v)) => match vars(v) {
                Some(x) => Some(t + x),
                None => None,
            },
            _ => None,
        },
        chunks_resolved(seq![c], 1, vars) == match c {
            ChunkModel::Text(x) => Some(x),
            ChunkModel::Var(v) => vars(v),
        },
{
    lemma_chunks_resolved_prefix(cs, c, cs.len() as int, vars);
    assert(cs.push(c)[cs.len() as int] == c);
    let e = Seq::<ChunkModel>::empty();
    assert(seq![c] =~= e.push(c));
    lemma_chunks_resolved_prefix(e, c, 0, vars);
    assert(seq![c][0] == c);
    assert(Seq::<char>::empty() + match c {
        ChunkModel::Text(x) => x,
        ChunkModel::Var(v) => Seq::<char>::empty(),
    } =~= match c {
        ChunkModel::Text(x) => x,
        ChunkModel::Var(v) => Seq::<char>::empty(),
    });
    match c {
        ChunkModel::Var(v) => match vars(v) {
            Some(x) => {
                assert(Seq::<char>::empty() + x =~= x);
            },
            None => {},
        },
        _ => {},
    }
}

pub proof fn lemma_chunks_resolved_none(
    cs: Seq<ChunkModel>,
    i: int,
    n: int,
    vars: spec_fn(Seq<char>) -> Option<Seq<char>>,
)
    requires
        0 <= i <= n,
        chunks_resolved(cs, i, vars) is None,
    ensures
        chunks_resolved(cs, n, vars) is None,
    decreases n - i,
{
    if i < n {
        lemma_chunks_resolved_none(cs, i, n - 1, vars);
    }
}

fn chunk_parse(cs: &Vec<char>, i: usize, text: CharClass) -> (r: Outcome<Chunk>)
    requires
        i <= cs@.len(),
    ensures
        agrees(r, chunk_at(cs@, i as int, text)),
        within(r, cs@.len() as int),
        r matches Outcome::Done(_, e) ==> e > i,
{
    proof {
        lemma_len_fits(cs);
        lemma_run_end(cs@, i + 3, CharClass::Domain);
    }
    if is_at(cs, i, '$') {
        if is_at(cs, i + 1, '{') && i + 2 < cs.len() && lower(cs[i + 2]) {
            let e = scan(cs, i + 3, CharClass::Domain);
            if is_at(cs, e, '}') {
                Outcome::Done(Chunk::Var(string_of(cs, i + 2, e)), e + 1)
            } else {
                Outcome::Fail
            }
        } else {
            Outcome::Fail
        }
    } else {
        let e = scan(cs, i, text);
        if e > i {
            Outcome::Done(Chunk::Text(string_of(cs, i, e)), e)
        } else {
            Outcome::Miss
        }
    }
}

fn chunks_parse(cs: &Vec<char>, p: usize, text: CharClass) -> (r: Option<(Vec<Chunk>, usize)>)
    requires
        p <= cs@.len(),
    ensures
        match (r, chunks_from(cs@, p as int, text)) {
            (Some((xs, f)), Some((ms, g))) => view_chunks(xs@) == ms && f as int == g,
            (None, None) => true,
            _ => false,
        },
        r matches Some((_, f)) ==> p <= f <= cs@.len(),
{
    let mut acc: Vec<Chunk> = Vec::new();
    let mut q = p;
    loop
        invariant
            p <= q <= cs@.len(),
            match chunks_from(cs@, q as int, text) {
                Some((xs, f)) => chunks_from(cs@, p as int, text) == Some(
                    (view_chunks(acc@) + xs, f),
                ),
                None => chunks_from(cs@, p as int, text) is None,
            },
        decreases cs@.len() - q,
    {
        match chunk_parse(cs, q, text) {
            Outcome::Done(x, e) => {
                proof {
                    let ghost old_acc = view_chunks(acc@);
                    assert(view_chunks(acc@.push(x)) =~= old_acc + seq![x@]);
                    match chunks_from(cs@, e as int, text) {
                        Some((xs, f)) => {
                            assert(old_acc + (seq![x@] + xs) =~= (old_acc + seq![x@]) + xs);
                        },
                        None => {},
                    }
                }
                acc.push(x);
                q = e;
            },
            Outcome::Miss => {
                assert(view_chunks(acc@) + Seq::<ChunkModel>::empty() =~= view_chunks(acc@));
                return Some((acc, q));
            },
            Outcome::Fail => {
                return None;
            },
        }
    }
}

/// Reads the chunks at the start of `input`, whose plain text is made of runs of the class
/// `text`; what follows them is left unread.
pub fn subst(input: &str, text: CharClass) -> (r: Result<Subst, MsgErr>)
    ensures
        match (r, subst_of(input@, text)) {
            (Ok(x), Some((ms, e))) => view_chunks(x.chunks@) == ms && x.trace.range.start == 0
                && x.trace.range.end == e,
            (Err(_), None) => true,
            _ => false,
        },
{
    let cs = chars_of(input);
    match chunks_parse(&cs, 0, text) {
        Some((chunks, e)) => {
            if chunks.len() == 0 {
                Err(MsgErr::from_500("expected a variable or text"))
            } else {
                Ok(Subst { chunks, trace: Trace::new(0, e) })
            }
        },
        None => Err(MsgErr::from_500("could not parse variable")),
    }
}

/// Reads a path with variables: it starts with `/`, and its plain text is made of path
/// characters.
pub fn subst_path(input: &str) -> (r: Result<Subst, MsgErr>)
    ensures
        match (r, subst_of(input@, CharClass::Filepath)) {
            (Ok(x), Some((ms, e))) => char_at(input@, 0, '/') && view_chunks(x.chunks@) == ms
                && x.trace.range.start == 0 && x.trace.range.end == e,
            (Err(_), None) => true,
            (Err(_), Some(_)) => !char_at(input@, 0, '/'),
            _ => false,
        },
{
    if !(input.unicode_len() > 0 && input.get_char(0) == '/') {
        return Err(MsgErr::from_500("expected a path starting with '/'"));
    }
    subst(input, CharClass::Filepath)
}

impl Subst {
    /// Reads a path with variables.
    pub fn new(path: &str) -> (r: Result<Subst, MsgErr>)
        ensures
            match (r, subst_of(path@, CharClass::Filepath)) {
                (Ok(x), Some((ms, e))) => char_at(path@, 0, '/') && view_chunks(x.chunks@) == ms
                    && x.trace.range.start == 0 && x.trace.range.end == e,
                (Err(_), None) => true,
                (Err(_), Some(_)) => !char_at(path@, 0, '/'),
                _ => false,
            },
    {
        subst_path(path)
    }

    /// The text as written, with `${name}` for each variable.
    pub fn to_string(&self) -> (r: String)
        ensures
            r@ == chunks_text(view_chunks(self.chunks@), self.chunks@.len() as int),
    {
        let ghost cm = view_chunks(self.chunks@);
        let mut rtn = String::new();
        let mut i: usize = 0;
        while i < self.chunks.len()
            invariant
                cm == view_chunks(self.chunks@),
                i <= self.chunks@.len(),
                rtn@ == chunks_text(cm, i as int),
            decreases self.chunks@.len() - i,
        {
            assert(cm[i as int] == self.chunks@[i as int]@);
            match &self.chunks[i] {
                Chunk::Var(var) => {
                    push_str(&mut rtn, "${");
                    push_str(&mut rtn, var.as_str());
                    push_str(&mut rtn, "}");
                },
                Chunk::Text(text) => {
                    push_str(&mut rtn, text.as_str());
                },
            }
            proof {
                reveal_strlit("${");
                reveal_strlit("}");
            }
            i = i + 1;
            assert(rtn@ =~= chunks_text(cm, i as int));
        }
        rtn
    }

    /// The text with each variable replaced by its value in `env`; an error where one has none.
    pub fn to_resolved(&self, env: &Env) -> (r: Result<String, MsgErr>)
        ensures
            match chunks_resolved(
                view_chunks(self.chunks@),
                self.chunks@.len() as int,
                crate::resolve::scope_vars(*env),
            ) {
                Some(t) => r matches Ok(x) && x@ == t,
                None => r is Err,
            },
    {
        let ghost cm = view_chunks(self.chunks@);
        let ghost vars = crate::resolve::scope_vars(*env);
        let mut rtn = String::new();
        let mut errs: Vec<ParseErrs> = Vec::new();
        let mut i: usize = 0;
        while i < self.chunks.len()
            invariant
                cm == view_chunks(self.chunks@),
                vars == crate::resolve::scope_vars(*env),
                i <= self.chunks@.len(),
                errs@.len() == 0 <==> chunks_resolved(cm, i as int, vars) is Some,
                errs@.len() == 0 ==> chunks_resolved(cm, i as int, vars) == Some(rtn@),
            decreases self.chunks@.len() - i,
        {
            assert(cm[i as int] == self.chunks@[i as int]@);
            let ghost before = rtn@;
            match &self.chunks[i] {
                Chunk::Var(var) => match env.val(var.as_str()) {
                    Ok(val) => {
                        push_str(&mut rtn, val.as_str());
                    },
                    Err(_) => {
                        let mut m = String::new();
                        push_str(&mut m, "could not find variable: ");
                        push_str(&mut m, var.as_str());
                        errs.push(
                            ParseErrs::from_range(
                                m.as_str(),
                                "not found",
                                std::ops::Range {
                                    start: self.trace.range.start,
                                    end: self.trace.range.end,
                                },
                            ),
                        );
                    },
                },
                Chunk::Text(text) => {
                    push_str(&mut rtn, text.as_str());
                },
            }
            proof {
                if chunks_resolved(cm, i as int, vars) is None {
                    assert(chunks_resolved(cm, i + 1, vars) is None);
                }
            }
            i = i + 1;
        }
        if errs.len() == 0 {
            Ok(rtn)
        } else {
            Err(MsgErr::ParseErrs(ParseErrs::fold(errs)))
        }
    }
}

/// The text of chunks put in front of more chunks.
proof fn lemma_chunks_text_cons(c: ChunkModel, cs: Seq<ChunkModel>, n: int)
    requires
        0 <= n <= cs.len(),
    ensures
        chunks_text(seq![c] + cs, n + 1) == chunk_text(c) + chunks_text(cs, n),
    decreases n,
{
    let all = seq![c] + cs;
    if n == 0 {
        assert(chunks_text(all, 0) =~= Seq::<char>::empty());
        assert(chunk_text(c) + chunks_text(cs, 0) =~= Seq::<char>::empty() + chunk_text(all[0]));
    } else {
        lemma_chunks_text_cons(c, cs, n - 1);
        assert(all[n] == cs[n - 1]);
        assert(chunks_text(all, n + 1) == chunks_text(all, n) + chunk_text(all[n]));
        assert(chunk_text(c) + chunks_text(cs, n) =~= chunk_text(c) + chunks_text(cs, n - 1)
            + chunk_text(cs[n - 1]));
    }
}

proof fn lemma_chunks_print_back(s: Seq<char>, i: int, text: CharClass)
    requires
        0 <= i <= s.len(),
    ensures
        chunks_from(s, i, text) matches Some((cs, e)) ==> i <= e <= s.len() && chunks_text(
            cs,
            cs.len() as int,
        ) == s.subrange(i, e),
    decreases s.len() - i,
{
    match chunk_at(s, i, text) {
        Step::Done(c, e) => {
            if i < e <= s.len() {
                lemma_chunks_print_back(s, e, text);
                match chunks_from(s, e, text) {
                    Some((cs, f)) => {
                        lemma_chunks_text_cons(c, cs, cs.len() as int);
                        assert(chunk_text(c) =~= s.subrange(i, e));
                        assert(s.subrange(i, f) =~= s.subrange(i, e) + s.subrange(e, f));
                    },
                    None => {},
                }
            }
        },
        Step::Miss => {
            assert(chunks_text(Seq::<ChunkModel>::empty(), 0) =~= s.subrange(i, i));
        },
        Step::Fail => {},
    }
}

/// The chunks read from a text print back as the part of the text they were read from.
pub proof fn law_subst_prints_back(s: Seq<char>, text: CharClass)
    ensures
        subst_of(s, text) matches Some((cs, e)) ==> chunks_text(cs, cs.len() as int)
            == s.subrange(0, e),
{
    lemma_chunks_print_back(s, 0, text);
}

} // verus!
