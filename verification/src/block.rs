//! Lexing blocks of text: between brackets, between quotes, or up to a semicolon.
//!
//! A block is found at the start of a text and comes back with the rest of the text after it.
//! Each kind of block has a scan, stated as a spec function on characters; the lexers are proved
//! to stop exactly where the scan does.
use vstd::prelude::*;
use crate::error::MsgErr;
use crate::model::{
    close_char, open_char, Block, BlockKind, DelimitedBlockKind, NestedBlockKind,
    TerminatedBlockKind,
};
use crate::parse::{Outcome, Step};
use crate::text::{chars_of, string_of};

verus! {

/// A block as the lexers find it: its kind and its content.
pub type LexBlock = Block<String, ()>;

/// The quote that opens and closes a quoted block.
pub open spec fn quote_char(k: DelimitedBlockKind) -> char {
    match k {
        DelimitedBlockKind::SingleQuotes => '\'',
        DelimitedBlockKind::DoubleQuotes => '"',
    }
}

/// The character that ends a terminated block.
pub open spec fn terminator_char(k: TerminatedBlockKind) -> char {
    match k {
        TerminatedBlockKind::Semicolon => ';',
    }
}

/// Whether a character closes a bracket of any kind.
pub open spec fn closer(c: char) -> bool {
    c == '}' || c == ')' || c == ']' || c == '>'
}

/// The kind of bracket a character opens, if it opens one.
pub open spec fn opener(c: char) -> Option<NestedBlockKind> {
    if c == '{' {
        Some(NestedBlockKind::Curly)
    } else if c == '(' {
        Some(NestedBlockKind::Parens)
    } else if c == '[' {
        Some(NestedBlockKind::Square)
    } else if c == '<' {
        Some(NestedBlockKind::Angle)
    } else {
        None
    }
}

/// Scans a loosely nested block of kind `k` from `j`, `depth` levels deep: brackets of kind
/// `k` open and close levels, a backslash hides the character after it, anything else is content.
/// The block ends past the bracket that closes the outermost level, and fails at the end of the
/// text.
pub open spec fn rough_scan(s: Seq<char>, k: NestedBlockKind, j: int, depth: nat) -> Step<()>
    decreases s.len() - j,
{
    if j < 0 || j >= s.len() {
        Step::Fail
    } else if s[j] == close_char(k) {
        if depth <= 1 {
            Step::Done((), j + 1)
        } else {
            rough_scan(s, k, j + 1, (depth - 1) as nat)
        }
    } else if s[j] == open_char(k) {
        rough_scan(s, k, j + 1, depth + 1)
    } else if s[j] == '\\' && j + 1 < s.len() {
        rough_scan(s, k, j + 2, depth)
    } else {
        rough_scan(s, k, j + 1, depth)
    }
}

/// A loosely nested block at `i`: none unless its opening bracket stands there.
pub open spec fn rough_block_at(s: Seq<char>, k: NestedBlockKind, i: int) -> Step<()> {
    if 0 <= i < s.len() && s[i] == open_char(k) {
        rough_scan(s, k, i + 1, 1)
    } else {
        Step::Miss
    }
}

/// Scans a quoted block from `j`: it ends past the next quote that no backslash hides, and fails
/// at the end of the text.
pub open spec fn quoted_scan(s: Seq<char>, q: char, j: int) -> Step<()>
    decreases s.len() - j,
{
    if j < 0 || j >= s.len() {
        Step::Fail
    } else if s[j] == q {
        Step::Done((), j + 1)
    } else if s[j] == '\\' && j + 1 < s.len() {
        quoted_scan(s, q, j + 2)
    } else {
        quoted_scan(s, q, j + 1)
    }
}

/// A quoted block at `i`: none unless its quote stands there.
pub open spec fn quoted_block_at(s: Seq<char>, k: DelimitedBlockKind, i: int) -> Step<()> {
    if 0 <= i < s.len() && s[i] == quote_char(k) {
        quoted_scan(s, quote_char(k), i + 1)
    } else {
        Step::Miss
    }
}

/// A terminated block from `j`: it ends past the next terminator; none where no terminator
/// follows.
pub open spec fn terminated_scan(s: Seq<char>, t: char, j: int) -> Step<()>
    decreases s.len() - j,
{
    if j < 0 || j >= s.len() {
        Step::Miss
    } else if s[j] == t {
        Step::Done((), j + 1)
    } else {
        terminated_scan(s, t, j + 1)
    }
}

/// Scans a strictly nested block from `j`, inside the open brackets `stack`: a bracket of any
/// kind opens a level, only the bracket that closes the innermost level may close one, and any
/// other closing bracket fails. The block ends past the bracket that closes the outermost level,
/// and fails at the end of the text.
pub open spec fn strict_scan(s: Seq<char>, j: int, stack: Seq<NestedBlockKind>) -> Step<()>
    decreases s.len() - j,
{
    if j < 0 || j >= s.len() || stack.len() == 0 {
        Step::Fail
    } else if s[j] == close_char(stack.last()) {
        if stack.len() == 1 {
            Step::Done((), j + 1)
        } else {
            strict_scan(s, j + 1, stack.drop_last())
        }
    } else if closer(s[j]) {
        Step::Fail
    } else if opener(s[j]) is Some {
        strict_scan(s, j + 1, stack.push(opener(s[j])->0))
    } else {
        strict_scan(s, j + 1, stack)
    }
}

/// A strictly nested block at `i`: none unless its opening bracket stands there.
pub open spec fn strict_block_at(s: Seq<char>, k: NestedBlockKind, i: int) -> Step<()> {
    if 0 <= i < s.len() && s[i] == open_char(k) {
        strict_scan(s, i + 1, seq![k])
    } else {
        Step::Miss
    }
}

/// A block of the given kind at `i`; a partial block is never sought and fails.
pub open spec fn block_at(s: Seq<char>, kind: BlockKind, i: int) -> Step<()> {
    match kind {
        BlockKind::Nested(k) => rough_block_at(s, k, i),
        BlockKind::Delimited(k) => quoted_block_at(s, k, i),
        BlockKind::Terminated(k) => terminated_scan(s, terminator_char(k), i),
        BlockKind::Partial => Step::Fail,
    }
}

/// Where the content of a block found at `i` starts: after its opening bracket or quote; a
/// terminated block has none.
pub open spec fn content_start(kind: BlockKind, i: int) -> int {
    match kind {
        BlockKind::Terminated(_) => i,
        _ => i + 1,
    }
}

/// The first of `kinds` that finds a block at `i` or fails there decides; where each finds none,
/// the whole fails.
pub open spec fn alt_block_at(s: Seq<char>, kinds: Seq<BlockKind>, i: int) -> Step<BlockKind>
    decreases kinds.len(),
{
    if kinds.len() == 0 {
        Step::Fail
    } else {
        match block_at(s, kinds[0], i) {
            Step::Done(_, e) => Step::Done(kinds[0], e),
            Step::Fail => Step::Fail,
            Step::Miss => alt_block_at(s, kinds.drop_first(), i),
        }
    }
}

/// An executable outcome is the scan's: the same end, no block, or a failure.
pub open spec fn same_end(r: Outcome<()>, st: Step<()>) -> bool {
    match (r, st) {
        (Outcome::Done(_, e), Step::Done(_, f)) => e as int == f,
        (Outcome::Miss, Step::Miss) => true,
        (Outcome::Fail, Step::Fail) => true,
        _ => false,
    }
}

/// The result of lexing a block of kind `kind` at the start of `s`, where the scan gives `st`:
/// the rest of the text after the block and the block with its content, or an error.
pub open spec fn lexed(
    r: Result<(String, LexBlock), MsgErr>,
    s: Seq<char>,
    kind: BlockKind,
    st: Step<()>,
) -> bool {
    match st {
        Step::Done(_, e) => {
            &&& r matches Ok((rest, b))
            &&& rest@ == s.subrange(e, s.len() as int)
            &&& b.kind == kind
            &&& b.content@ == s.subrange(content_start(kind, 0), e - 1)
        },
        _ => r is Err,
    }
}

/// A scan that ends, ends past where it started and within the text.
pub(crate) proof fn lemma_rough_bounds(s: Seq<char>, k: NestedBlockKind, j: int, depth: nat)
    ensures
        rough_scan(s, k, j, depth) matches Step::Done(_, e) ==> j < e <= s.len(),
        !(rough_scan(s, k, j, depth) is Miss),
    decreases s.len() - j,
{
    if 0 <= j < s.len() {
        if s[j] == close_char(k) {
            if depth > 1 {
                lemma_rough_bounds(s, k, j + 1, (depth - 1) as nat);
            }
        } else if s[j] == open_char(k) {
            lemma_rough_bounds(s, k, j + 1, depth + 1);
        } else if s[j] == '\\' && j + 1 < s.len() {
            lemma_rough_bounds(s, k, j + 2, depth);
        } else {
            lemma_rough_bounds(s, k, j + 1, depth);
        }
    }
}

proof fn lemma_quoted_bounds(s: Seq<char>, q: char, j: int)
    ensures
        quoted_scan(s, q, j) matches Step::Done(_, e) ==> j < e <= s.len(),
        !(quoted_scan(s, q, j) is Miss),
    decreases s.len() - j,
{
    if 0 <= j < s.len() {
        if s[j] != q {
            if s[j] == '\\' && j + 1 < s.len() {
                lemma_quoted_bounds(s, q, j + 2);
            } else {
                lemma_quoted_bounds(s, q, j + 1);
            }
        }
    }
}

proof fn lemma_terminated_bounds(s: Seq<char>, t: char, j: int)
    ensures
        terminated_scan(s, t, j) matches Step::Done(_, e) ==> j < e <= s.len(),
        !(terminated_scan(s, t, j) is Fail),
    decreases s.len() - j,
{
    if 0 <= j < s.len() && s[j] != t {
        lemma_terminated_bounds(s, t, j + 1);
    }
}

pub(crate) proof fn lemma_strict_bounds(s: Seq<char>, j: int, stack: Seq<NestedBlockKind>)
    ensures
        strict_scan(s, j, stack) matches Step::Done(_, e) ==> j < e <= s.len(),
        !(strict_scan(s, j, stack) is Miss),
    decreases s.len() - j,
{
    if 0 <= j < s.len() && stack.len() > 0 {
        if s[j] == close_char(stack.last()) {
            if stack.len() > 1 {
                lemma_strict_bounds(s, j + 1, stack.drop_last());
            }
        } else if closer(s[j]) {
        } else if opener(s[j]) is Some {
            lemma_strict_bounds(s, j + 1, stack.push(opener(s[j])->0));
        } else {
            lemma_strict_bounds(s, j + 1, stack);
        }
    }
}

/// A block found at `i` ends past its first character and within the text; a bracket or quote
/// block never comes back as none once it has opened.
pub proof fn lemma_block_bounds(s: Seq<char>, kind: BlockKind, i: int)
    requires
        0 <= i,
    ensures
        block_at(s, kind, i) matches Step::Done(_, e) ==> content_start(kind, i) <= e - 1 && e
            <= s.len(),
{
    match kind {
        BlockKind::Nested(k) => {
            lemma_rough_bounds(s, k, i + 1, 1);
        },
        BlockKind::Delimited(k) => {
            lemma_quoted_bounds(s, quote_char(k), i + 1);
        },
        BlockKind::Terminated(k) => {
            lemma_terminated_bounds(s, terminator_char(k), i);
        },
        BlockKind::Partial => {},
    }
}

/// The end of the loosely nested block of kind `kind` at `i`.
pub fn rough_block_end(cs: &Vec<char>, i: usize, kind: NestedBlockKind) -> (r: Outcome<()>)
    ensures
        same_end(r, rough_block_at(cs@, kind, i as int)),
{
    let open = kind.open_as_char();
    let close = kind.close_as_char();
    if i >= cs.len() || cs[i] != open {
        return Outcome::Miss;
    }
    let ghost target = rough_block_at(cs@, kind, i as int);
    let mut j: usize = i + 1;
    let mut depth: usize = 1;
    while j < cs.len()
        invariant
            1 <= depth <= j <= cs@.len(),
            open == open_char(kind),
            close == close_char(kind),
            target == rough_block_at(cs@, kind, i as int),
            rough_scan(cs@, kind, j as int, depth as nat) == target,
        decreases cs@.len() - j,
    {
        let c = cs[j];
        if c == close {
            if depth == 1 {
                return Outcome::Done((), j + 1);
            }
            depth = depth - 1;
            j = j + 1;
        } else if c == open {
            depth = depth + 1;
            j = j + 1;
        } else if c == '\\' && j + 1 < cs.len() {
            j = j + 2;
        } else {
            j = j + 1;
        }
    }
    Outcome::Fail
}

/// The end of the quoted block of kind `kind` at `i`.
pub fn quoted_block_end(cs: &Vec<char>, i: usize, kind: DelimitedBlockKind) -> (r: Outcome<()>)
    ensures
        same_end(r, quoted_block_at(cs@, kind, i as int)),
{
    let q = match kind {
        DelimitedBlockKind::SingleQuotes => '\'',
        DelimitedBlockKind::DoubleQuotes => '"',
    };
    if i >= cs.len() || cs[i] != q {
        return Outcome::Miss;
    }
    let ghost target = quoted_block_at(cs@, kind, i as int);
    let mut j: usize = i + 1;
    while j < cs.len()
        invariant
            j <= cs@.len(),
            q == quote_char(kind),
            target == quoted_block_at(cs@, kind, i as int),
            quoted_scan(cs@, q, j as int) == target,
        decreases cs@.len() - j,
    {
        let c = cs[j];
        if c == q {
            return Outcome::Done((), j + 1);
        } else if c == '\\' && j + 1 < cs.len() {
            j = j + 2;
        } else {
            j = j + 1;
        }
    }
    Outcome::Fail
}

/// The end of the terminated block of kind `kind` from `i`.
pub fn terminated_block_end(cs: &Vec<char>, i: usize, kind: TerminatedBlockKind) -> (r: Outcome<
    (),
>)
    ensures
        same_end(r, terminated_scan(cs@, terminator_char(kind), i as int)),
{
    let t = kind.as_char();
    let ghost target = terminated_scan(cs@, t, i as int);
    let mut j: usize = i;
    while j < cs.len()
        invariant
            t == terminator_char(kind),
            target == terminated_scan(cs@, t, i as int),
            terminated_scan(cs@, t, j as int) == target,
        decreases cs@.len() - j,
    {
        if cs[j] == t {
            return Outcome::Done((), j + 1);
        }
        j = j + 1;
    }
    Outcome::Miss
}

/// The kind of bracket a character opens, if it opens one.
fn opener_exec(c: char) -> (r: Option<NestedBlockKind>)
    ensures
        r == opener(c),
{
    if c == '{' {
        Some(NestedBlockKind::Curly)
    } else if c == '(' {
        Some(NestedBlockKind::Parens)
    } else if c == '[' {
        Some(NestedBlockKind::Square)
    } else if c == '<' {
        Some(NestedBlockKind::Angle)
    } else {
        None
    }
}

/// The end of the strictly nested block of kind `kind` at `i`.
pub fn strict_block_end(cs: &Vec<char>, i: usize, kind: NestedBlockKind) -> (r: Outcome<()>)
    ensures
        same_end(r, strict_block_at(cs@, kind, i as int)),
{
    if i >= cs.len() || cs[i] != kind.open_as_char() {
        return Outcome::Miss;
    }
    let ghost target = strict_block_at(cs@, kind, i as int);
    let mut stack: Vec<NestedBlockKind> = Vec::new();
    stack.push(kind);
    let mut j: usize = i + 1;
    while j < cs.len()
        invariant
            1 <= stack@.len() <= j <= cs@.len(),
            target == strict_block_at(cs@, kind, i as int),
            strict_scan(cs@, j as int, stack@) == target,
        decreases cs@.len() - j,
    {
        let c = cs[j];
        let top = stack[stack.len() - 1];
        if c == top.close_as_char() {
            if stack.len() == 1 {
                return Outcome::Done((), j + 1);
            }
            let ghost before = stack@;
            stack.pop();
            proof {
                assert(stack@ =~= before.drop_last());
            }
            j = j + 1;
        } else if NestedBlockKind::is_block_terminator(c) {
            proof {
                let k = choose|k: NestedBlockKind| close_char(k) == c;
                assert(closer(close_char(k)));
            }
            return Outcome::Fail;
        } else {
            proof {
                assert(!closer(c)) by {
                    if closer(c) {
                        if c == '}' {
                            assert(close_char(NestedBlockKind::Curly) == c);
                        } else if c == ')' {
                            assert(close_char(NestedBlockKind::Parens) == c);
                        } else if c == ']' {
                            assert(close_char(NestedBlockKind::Square) == c);
                        } else {
                            assert(close_char(NestedBlockKind::Angle) == c);
                        }
                    }
                }
            }
            match opener_exec(c) {
                Some(k) => {
                    stack.push(k);
                },
                None => {},
            }
            j = j + 1;
        }
    }
    Outcome::Fail
}

/// The end of the block of kind `kind` at `i`.
pub fn block_end(cs: &Vec<char>, i: usize, kind: BlockKind) -> (r: Outcome<()>)
    ensures
        same_end(r, block_at(cs@, kind, i as int)),
{
    match kind {
        BlockKind::Nested(k) => rough_block_end(cs, i, k),
        BlockKind::Delimited(k) => quoted_block_end(cs, i, k),
        BlockKind::Terminated(k) => terminated_block_end(cs, i, k),
        BlockKind::Partial => Outcome::Fail,
    }
}

/// The rest of the text after a block that ends at `e`, and the block with its content.
fn split_block(cs: &Vec<char>, kind: BlockKind, e: usize) -> (r: (String, LexBlock))
    requires
        content_start(kind, 0) <= e - 1,
        e <= cs@.len(),
    ensures
        r.0@ == cs@.subrange(e as int, cs@.len() as int),
        r.1.kind == kind,
        r.1.content@ == cs@.subrange(content_start(kind, 0), e - 1),
{
    let from: usize = match kind {
        BlockKind::Terminated(_) => 0,
        _ => 1,
    };
    let content = string_of(cs, from, e - 1);
    let rest = string_of(cs, e, cs.len());
    (rest, Block { kind, content, data: () })
}

/// The message of the error for a block of kind `kind` that is not there.
pub open spec fn no_block_message(kind: BlockKind) -> Seq<char> {
    match kind {
        BlockKind::Nested(k) => "block:"@ + seq![open_char(k), close_char(k)],
        BlockKind::Delimited(DelimitedBlockKind::SingleQuotes) => "single:quotes:block"@,
        BlockKind::Delimited(DelimitedBlockKind::DoubleQuotes) => "double:quotes:block"@,
        BlockKind::Terminated(_) => "terminated block"@,
        BlockKind::Partial => "parser should not be seeking partial block kinds"@,
    }
}

fn no_block(kind: BlockKind) -> (r: MsgErr)
    ensures
        r.is_status(500, no_block_message(kind)),
{
    match kind {
        BlockKind::Nested(k) => MsgErr::from_500(k.context()),
        BlockKind::Delimited(k) => MsgErr::from_500(k.context()),
        BlockKind::Terminated(_) => MsgErr::from_500("terminated block"),
        BlockKind::Partial => MsgErr::from_500("parser should not be seeking partial block kinds"),
    }
}

/// Lexes a block of kind `kind` at the start of `input`.
pub fn lex_block(input: &str, kind: BlockKind) -> (r: Result<(String, LexBlock), MsgErr>)
    ensures
        lexed(r, input@, kind, block_at(input@, kind, 0)),
{
    let cs = chars_of(input);
    match block_end(&cs, 0, kind) {
        Outcome::Done(_, e) => {
            proof {
                lemma_block_bounds(cs@, kind, 0);
            }
            Ok(split_block(&cs, kind, e))
        },
        _ => Err(no_block(kind)),
    }
}

/// Lexes a block between brackets of kind `kind`, where brackets of that kind may nest and a
/// backslash hides the character after it.
pub fn lex_nested_block(input: &str, kind: NestedBlockKind) -> (r: Result<(String, LexBlock), MsgErr>)
    ensures
        lexed(r, input@, BlockKind::Nested(kind), rough_block_at(input@, kind, 0)),
{
    lex_block(input, BlockKind::Nested(kind))
}

/// Lexes a block between quotes, where a backslash hides the character after it.
pub fn lex_delimited_block(input: &str, kind: DelimitedBlockKind) -> (r: Result<
    (String, LexBlock),
    MsgErr,
>)
    ensures
        lexed(r, input@, BlockKind::Delimited(kind), quoted_block_at(input@, kind, 0)),
{
    lex_block(input, BlockKind::Delimited(kind))
}

/// Lexes a block up to and including its terminator.
pub fn lex_terminated_block(input: &str, kind: TerminatedBlockKind) -> (r: Result<
    (String, LexBlock),
    MsgErr,
>)
    ensures
        lexed(r, input@, BlockKind::Terminated(kind), terminated_scan(input@, terminator_char(kind), 0)),
{
    lex_block(input, BlockKind::Terminated(kind))
}

/// Lexes a block of the first of `kinds` that finds one or fails at the start of `input`.
pub fn lex_block_alt(input: &str, kinds: &Vec<BlockKind>) -> (r: Result<(String, LexBlock), MsgErr>)
    ensures
        match alt_block_at(input@, kinds@, 0) {
            Step::Done(k, e) => {
                &&& r matches Ok((rest, b))
                &&& rest@ == input@.subrange(e, input@.len() as int)
                &&& b.kind == k
                &&& b.content@ == input@.subrange(content_start(k, 0), e - 1)
            },
            _ => r is Err,
        },
{
    let cs = chars_of(input);
    let mut idx: usize = 0;
    assert(kinds@.subrange(0, kinds@.len() as int) =~= kinds@);
    while idx < kinds.len()
        invariant
            idx <= kinds@.len(),
            cs@ == input@,
            alt_block_at(cs@, kinds@.subrange(idx as int, kinds@.len() as int), 0) == alt_block_at(
                cs@,
                kinds@,
                0,
            ),
        decreases kinds@.len() - idx,
    {
        let kind = kinds[idx];
        let ghost tail = kinds@.subrange(idx as int, kinds@.len() as int);
        assert(tail[0] == kind);
        assert(tail.drop_first() =~= kinds@.subrange(idx + 1, kinds@.len() as int));
        match block_end(&cs, 0, kind) {
            Outcome::Done(_, e) => {
                proof {
                    lemma_block_bounds(cs@, kind, 0);
                }
                return Ok(split_block(&cs, kind, e));
            },
            Outcome::Fail => {
                return Err(no_block(kind));
            },
            Outcome::Miss => {},
        }
        idx = idx + 1;
    }
    Err(MsgErr::from_500("no block of the expected kinds"))
}

/// Lexes a block between brackets of kind `kind`, where brackets of every kind nest and a
/// closing bracket must close the innermost open one.
pub fn nested_block(input: &str, kind: NestedBlockKind) -> (r: Result<(String, LexBlock), MsgErr>)
    ensures
        lexed(r, input@, BlockKind::Nested(kind), strict_block_at(input@, kind, 0)),
{
    let cs = chars_of(input);
    match strict_block_end(&cs, 0, kind) {
        Outcome::Done(_, e) => {
            proof {
                lemma_strict_bounds(cs@, 1, seq![kind]);
            }
            Ok(split_block(&cs, BlockKind::Nested(kind), e))
        },
        _ => Err(MsgErr::from_500(kind.context())),
    }
}

/// The content of a strictly nested block at the start of `input`, with the rest after it.
pub fn nested_block_content(input: &str, kind: NestedBlockKind) -> (r: Result<(String, String), MsgErr>)
    ensures
        match strict_block_at(input@, kind, 0) {
            Step::Done(_, e) => r matches Ok((rest, content)) && rest@ == input@.subrange(
                e,
                input@.len() as int,
            ) && content@ == input@.subrange(1, e - 1),
            _ => r is Err,
        },
{
    let (rest, block) = nested_block(input, kind)?;
    Ok((rest, block.content))
}

/// Takes one character that is not a closing bracket, or is the one that closes `expect`; the
/// rest of the text comes back.
pub fn expected_block_terminator_or_non_terminator(input: &str, expect: NestedBlockKind) -> (r:
    Result<String, MsgErr>)
    ensures
        r is Ok <==> (input@.len() > 0 && (closer(input@[0]) ==> input@[0] == close_char(expect))),
        r matches Ok(rest) ==> rest@ == input@.drop_first(),
{
    let cs = chars_of(input);
    if cs.len() == 0 {
        return Err(MsgErr::from_500("expected a character"));
    }
    let c = cs[0];
    let terminator = c == '}' || c == ')' || c == ']' || c == '>';
    if terminator && c != expect.close_as_char() {
        return Err(MsgErr::from_500(expect.unpaired_closing_scope()));
    }
    let rest = string_of(&cs, 1, cs.len());
    assert(rest@ =~= input@.drop_first());
    Ok(rest)
}

proof fn lemma_rough_closes(s: Seq<char>, k: NestedBlockKind, j: int, depth: nat)
    ensures
        rough_scan(s, k, j, depth) matches Step::Done(_, e) ==> 0 < e <= s.len() && s[e - 1]
            == close_char(k),
    decreases s.len() - j,
{
    if 0 <= j < s.len() {
        if s[j] == close_char(k) {
            if depth > 1 {
                lemma_rough_closes(s, k, j + 1, (depth - 1) as nat);
            }
        } else if s[j] == open_char(k) {
            lemma_rough_closes(s, k, j + 1, depth + 1);
        } else if s[j] == '\\' && j + 1 < s.len() {
            lemma_rough_closes(s, k, j + 2, depth);
        } else {
            lemma_rough_closes(s, k, j + 1, depth);
        }
    }
}

proof fn lemma_strict_closes(s: Seq<char>, j: int, stack: Seq<NestedBlockKind>)
    ensures
        strict_scan(s, j, stack) matches Step::Done(_, e) ==> 0 < e <= s.len() && s[e - 1]
            == close_char(stack[0]),
    decreases s.len() - j,
{
    if 0 <= j < s.len() && stack.len() > 0 {
        if s[j] == close_char(stack.last()) {
            if stack.len() > 1 {
                lemma_strict_closes(s, j + 1, stack.drop_last());
                assert(stack.drop_last()[0] == stack[0]);
            }
        } else if closer(s[j]) {
        } else if opener(s[j]) is Some {
            lemma_strict_closes(s, j + 1, stack.push(opener(s[j])->0));
            assert(stack.push(opener(s[j])->0)[0] == stack[0]);
        } else {
            lemma_strict_closes(s, j + 1, stack);
        }
    }
}

/// A block found between brackets starts with its kind's opening bracket and ends with the
/// matching closing bracket, whether brackets nest loosely or strictly.
pub proof fn law_block_brackets_match(s: Seq<char>, k: NestedBlockKind)
    ensures
        rough_block_at(s, k, 0) matches Step::Done(_, e) ==> s[0] == open_char(k) && s[e - 1]
            == close_char(k),
        strict_block_at(s, k, 0) matches Step::Done(_, e) ==> s[0] == open_char(k) && s[e - 1]
            == close_char(k),
{
    lemma_rough_closes(s, k, 1, 1);
    lemma_strict_closes(s, 1, seq![k]);
}

/// A quoted block starts and ends with its quote.
pub proof fn law_quotes_match(s: Seq<char>, k: DelimitedBlockKind)
    ensures
        quoted_block_at(s, k, 0) matches Step::Done(_, e) ==> s[0] == quote_char(k) && s[e - 1]
            == quote_char(k),
{
    lemma_quoted_closes(s, quote_char(k), 1);
}

proof fn lemma_quoted_closes(s: Seq<char>, q: char, j: int)
    ensures
        quoted_scan(s, q, j) matches Step::Done(_, e) ==> 0 < e <= s.len() && s[e - 1] == q,
    decreases s.len() - j,
{
    if 0 <= j < s.len() && s[j] != q {
        if s[j] == '\\' && j + 1 < s.len() {
            lemma_quoted_closes(s, q, j + 2);
        } else {
            lemma_quoted_closes(s, q, j + 1);
        }
    }
}

} // verus!
