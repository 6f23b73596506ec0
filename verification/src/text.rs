//! Character classes and small string utilities shared by the parsers and printers.
use vstd::prelude::*;

verus! {

/// An ASCII lowercase letter.
pub open spec fn is_lower(c: char) -> bool {
    'a' <= c && c <= 'z'
}

/// An ASCII uppercase letter.
pub open spec fn is_upper(c: char) -> bool {
    'A' <= c && c <= 'Z'
}

/// An ASCII decimal digit.
pub open spec fn is_digit(c: char) -> bool {
    '0' <= c && c <= '9'
}

/// An ASCII letter of either case.
pub open spec fn is_alpha(c: char) -> bool {
    is_lower(c) || is_upper(c)
}

/// An ASCII letter or digit.
pub open spec fn is_alnum(c: char) -> bool {
    is_alpha(c) || is_digit(c)
}

/// Characters of a domain (and of a space segment): lowercase letters, digits, `-` and `.`.
pub open spec fn is_domain_char(c: char) -> bool {
    is_lower(c) || is_digit(c) || c == '-' || c == '.'
}

/// Characters of skewer case: lowercase letters, digits and `-`.
pub open spec fn is_skewer_char(c: char) -> bool {
    is_lower(c) || is_digit(c) || c == '-'
}

/// Characters of a file or directory name: letters, digits, `-`, `.` and `_`.
pub open spec fn is_file_char(c: char) -> bool {
    is_alnum(c) || c == '-' || c == '.' || c == '_'
}

/// Characters allowed after the first letter of a variable name: letters, digits and `-`.
pub open spec fn is_var_tail_char(c: char) -> bool {
    is_alnum(c) || c == '-'
}

/// Characters allowed inside a `[<...>]` star route.
pub open spec fn is_sys_route_char(c: char) -> bool {
    is_alnum(c) || c == '-' || c == '.' || c == '/' || c == '_' || c == ':' || c == '('
        || c == ')' || c == '[' || c == ']'
}

/// Characters of a path: letters, digits, `-`, `.`, `/`, `:` and `_`.
pub open spec fn is_filepath_char(c: char) -> bool {
    is_alnum(c) || c == '-' || c == '.' || c == '/' || c == ':' || c == '_'
}

/// White space as the grammar counts it (space, tab, carriage return, line feed).
pub open spec fn is_multispace(c: char) -> bool {
    c == ' ' || c == '\t' || c == '\r' || c == '\n'
}

pub fn lower(c: char) -> (b: bool)
    ensures
        b == is_lower(c),
{
    'a' <= c && c <= 'z'
}

pub fn upper(c: char) -> (b: bool)
    ensures
        b == is_upper(c),
{
    'A' <= c && c <= 'Z'
}

pub fn digit(c: char) -> (b: bool)
    ensures
        b == is_digit(c),
{
    '0' <= c && c <= '9'
}

pub fn alpha(c: char) -> (b: bool)
    ensures
        b == is_alpha(c),
{
    lower(c) || upper(c)
}

pub fn alnum(c: char) -> (b: bool)
    ensures
        b == is_alnum(c),
{
    alpha(c) || digit(c)
}

pub fn domain_char(c: char) -> (b: bool)
    ensures
        b == is_domain_char(c),
{
    lower(c) || digit(c) || c == '-' || c == '.'
}

pub fn skewer_char(c: char) -> (b: bool)
    ensures
        b == is_skewer_char(c),
{
    lower(c) || digit(c) || c == '-'
}

pub fn file_char(c: char) -> (b: bool)
    ensures
        b == is_file_char(c),
{
    alnum(c) || c == '-' || c == '.' || c == '_'
}

pub fn var_tail_char(c: char) -> (b: bool)
    ensures
        b == is_var_tail_char(c),
{
    alnum(c) || c == '-'
}

pub fn sys_route_char(c: char) -> (b: bool)
    ensures
        b == is_sys_route_char(c),
{
    alnum(c) || c == '-' || c == '.' || c == '/' || c == '_' || c == ':' || c == '(' || c == ')'
        || c == '[' || c == ']'
}

pub fn filepath_char(c: char) -> (b: bool)
    ensures
        b == is_filepath_char(c),
{
    alnum(c) || c == '-' || c == '.' || c == '/' || c == ':' || c == '_'
}

pub fn multispace(c: char) -> (b: bool)
    ensures
        b == is_multispace(c),
{
    c == ' ' || c == '\t' || c == '\r' || c == '\n'
}

/// A class of characters that the grammar reads in runs.
#[derive(Clone, Copy, PartialEq, Eq, Structural)]
pub enum CharClass {
    Lower,
    Digit,
    Domain,
    Skewer,
    File,
    VarTail,
    SysRoute,
    Filepath,
    Alnum,
    Space,
}

pub open spec fn in_class(k: CharClass, c: char) -> bool {
    match k {
        CharClass::Lower => is_lower(c),
        CharClass::Digit => is_digit(c),
        CharClass::Domain => is_domain_char(c),
        CharClass::Skewer => is_skewer_char(c),
        CharClass::File => is_file_char(c),
        CharClass::VarTail => is_var_tail_char(c),
        CharClass::SysRoute => is_sys_route_char(c),
        CharClass::Filepath => is_filepath_char(c),
        CharClass::Alnum => is_alnum(c),
        CharClass::Space => is_multispace(c),
    }
}

pub fn class_has(k: CharClass, c: char) -> (b: bool)
    ensures
        b == in_class(k, c),
{
    match k {
        CharClass::Lower => lower(c),
        CharClass::Digit => digit(c),
        CharClass::Domain => domain_char(c),
        CharClass::Skewer => skewer_char(c),
        CharClass::File => file_char(c),
        CharClass::VarTail => var_tail_char(c),
        CharClass::SysRoute => sys_route_char(c),
        CharClass::Filepath => filepath_char(c),
        CharClass::Alnum => alnum(c),
        CharClass::Space => multispace(c),
    }
}

/// The end of the longest run of characters of class `k` that starts at `i`.
pub open spec fn run_end(s: Seq<char>, i: int, k: CharClass) -> int
    decreases s.len() - i,
{
    if 0 <= i < s.len() && in_class(k, s[i]) {
        run_end(s, i + 1, k)
    } else {
        i
    }
}

pub proof fn lemma_run_end(s: Seq<char>, i: int, k: CharClass)
    requires
        0 <= i,
    ensures
        i <= run_end(s, i, k),
        i <= s.len() ==> run_end(s, i, k) <= s.len(),
        forall|j: int| i <= j < run_end(s, i, k) ==> in_class(k, #[trigger] s[j]),
        run_end(s, i, k) < s.len() ==> !in_class(k, s[run_end(s, i, k)]),
    decreases s.len() - i,
{
    if i < s.len() && in_class(k, s[i]) {
        lemma_run_end(s, i + 1, k);
    }
}

/// A run of class `k` from `i` to `e` that the end of the text or a character outside the
/// class ends.
pub proof fn lemma_run_end_exact(s: Seq<char>, i: int, e: int, k: CharClass)
    requires
        0 <= i <= e <= s.len(),
        forall|j: int| i <= j < e ==> in_class(k, #[trigger] s[j]),
        e < s.len() ==> !in_class(k, s[e]),
    ensures
        run_end(s, i, k) == e,
    decreases e - i,
{
    if i < e {
        lemma_run_end_exact(s, i + 1, e, k);
    }
}

/// A run of class `k` over a text `t` that stands at `i` in `s` and that the next character
/// ends, if there is one.
pub proof fn lemma_run_over(s: Seq<char>, i: int, t: Seq<char>, k: CharClass)
    requires
        0 <= i,
        i + t.len() <= s.len(),
        s.subrange(i, i + t.len()) == t,
        forall|j: int| 0 <= j < t.len() ==> in_class(k, #[trigger] t[j]),
        i + t.len() < s.len() ==> !in_class(k, s[i + t.len()]),
    ensures
        run_end(s, i, k) == i + t.len(),
{
    assert forall|j: int| i <= j < i + t.len() implies in_class(k, #[trigger] s[j]) by {
        assert(s[j] == s.subrange(i, i + t.len())[j - i]);
    }
    lemma_run_end_exact(s, i, i + t.len(), k);
}

/// Scans the run of class `k` that starts at `i`.
pub fn scan(cs: &Vec<char>, i: usize, k: CharClass) -> (e: usize)
    requires
        i <= cs@.len(),
    ensures
        e as int == run_end(cs@, i as int, k),
        i <= e <= cs@.len(),
{
    proof {
        lemma_run_end(cs@, i as int, k);
    }
    let mut e = i;
    while e < cs.len() && class_has(k, cs[e])
        invariant
            i <= e <= cs@.len(),
            run_end(cs@, e as int, k) == run_end(cs@, i as int, k),
        decreases cs@.len() - e,
    {
        e = e + 1;
    }
    e
}

/// `t` occurs in `s` at position `i`.
pub open spec fn starts_at(s: Seq<char>, i: int, t: Seq<char>) -> bool {
    0 <= i && i + t.len() <= s.len() && s.subrange(i, i + t.len()) == t
}

/// The character at `i` is `c`.
pub open spec fn char_at(s: Seq<char>, i: int, c: char) -> bool {
    0 <= i < s.len() && s[i] == c
}

/// A vector's length fits in a `usize`.
pub proof fn lemma_len_fits<T>(cs: &Vec<T>)
    ensures
        cs@.len() <= usize::MAX,
{
    assert(cs.len() == cs@.len());
}

/// Appends a character to a string.
#[verifier::external_body]
pub(crate) fn push_char(s: &mut String, c: char)
    ensures
        final(s)@ == old(s)@.push(c),
{
    s.push(c);
}

/// Appends a string slice to a string.
pub fn push_str(s: &mut String, t: &str)
    ensures
        final(s)@ == old(s)@ + t@,
{
    s.append(t);
}

/// The characters of a string slice.
pub fn chars_of(s: &str) -> (v: Vec<char>)
    ensures
        v@ == s@,
{
    let mut v: Vec<char> = Vec::new();
    let n = s.unicode_len();
    let mut i: usize = 0;
    while i < n
        invariant
            n == s@.len(),
            i <= n,
            v@ == s@.subrange(0, i as int),
        decreases n - i,
    {
        let c = s.get_char(i);
        v.push(c);
        i = i + 1;
        assert(v@ =~= s@.subrange(0, i as int));
    }
    assert(v@ =~= s@);
    v
}

/// A string holding the characters `cs[from..to]`.
pub fn string_of(cs: &Vec<char>, from: usize, to: usize) -> (r: String)
    requires
        from <= to <= cs@.len(),
    ensures
        r@ == cs@.subrange(from as int, to as int),
{
    let mut r = String::new();
    let mut i = from;
    while i < to
        invariant
            from <= i <= to <= cs@.len(),
            r@ == cs@.subrange(from as int, i as int),
        decreases to - i,
    {
        push_char(&mut r, cs[i]);
        i = i + 1;
        assert(r@ =~= cs@.subrange(from as int, i as int));
    }
    r
}

/// Whether `cs` holds `t` at position `i`.
pub fn has_at(cs: &Vec<char>, i: usize, t: &str) -> (b: bool)
    ensures
        b == starts_at(cs@, i as int, t@),
{
    let tv = chars_of(t);
    if i > cs.len() || tv.len() > cs.len() - i {
        return false;
    }
    let mut k: usize = 0;
    while k < tv.len()
        invariant
            i + tv@.len() <= cs@.len(),
            tv.len() == tv@.len(),
            k <= tv@.len(),
            tv@ == t@,
            forall|j: int| 0 <= j < k ==> cs@[i + j] == tv@[j],
        decreases tv@.len() - k,
    {
        assert(i + k < cs.len());
        if cs[i + k] != tv[k] {
            assert(cs@.subrange(i as int, i + tv@.len())[k as int] != tv@[k as int]);
            return false;
        }
        k = k + 1;
    }
    assert(cs@.subrange(i as int, i + tv@.len()) =~= tv@);
    true
}

/// Whether position `i` holds the character `c`.
pub fn is_at(cs: &Vec<char>, i: usize, c: char) -> (b: bool)
    ensures
        b == char_at(cs@, i as int, c),
{
    i < cs.len() && cs[i] == c
}

/// The decimal digit character for `d < 10`.
pub open spec fn digit_char(d: nat) -> char {
    if d == 0 { '0' }
    else if d == 1 { '1' }
    else if d == 2 { '2' }
    else if d == 3 { '3' }
    else if d == 4 { '4' }
    else if d == 5 { '5' }
    else if d == 6 { '6' }
    else if d == 7 { '7' }
    else if d == 8 { '8' }
    else { '9' }
}

/// The decimal representation of `n`, without leading zeros.
pub open spec fn decimal(n: nat) -> Seq<char>
    decreases n,
{
    if n < 10 {
        seq![digit_char(n)]
    } else {
        decimal(n / 10).push(digit_char(n % 10))
    }
}

fn digit_to_char(d: u64) -> (c: char)
    requires
        d < 10,
    ensures
        c == digit_char(d as nat),
{
    if d == 0 { '0' }
    else if d == 1 { '1' }
    else if d == 2 { '2' }
    else if d == 3 { '3' }
    else if d == 4 { '4' }
    else if d == 5 { '5' }
    else if d == 6 { '6' }
    else if d == 7 { '7' }
    else if d == 8 { '8' }
    else { '9' }
}

/// The decimal text of a number.
pub fn u64_to_string(n: u64) -> (r: String)
    ensures
        r@ == decimal(n as nat),
    decreases n,
{
    if n < 10 {
        let mut r = String::new();
        push_char(&mut r, digit_to_char(n));
        assert(r@ =~= decimal(n as nat));
        r
    } else {
        let mut r = u64_to_string(n / 10);
        push_char(&mut r, digit_to_char(n % 10));
        r
    }
}

/// Whether two texts are the same.
pub fn str_eq(a: &str, b: &str) -> (r: bool)
    ensures
        r == (a@ == b@),
{
    let n = a.unicode_len();
    if n != b.unicode_len() {
        return false;
    }
    let mut i: usize = 0;
    while i < n
        invariant
            n == a@.len(),
            n == b@.len(),
            i <= n,
            forall|j: int| 0 <= j < i ==> a@[j] == b@[j],
        decreases n - i,
    {
        if a.get_char(i) != b.get_char(i) {
            return false;
        }
        i = i + 1;
    }
    assert(a@ =~= b@);
    true
}

} // verus!
