//! The grammar of kinds: a base kind, then in angle brackets a sub kind and, in angle brackets
//! again, a specific `provider:vendor:product:variant:version`.
use vstd::prelude::*;
use crate::case::{camel_ok, domain_ok, skewer_ok, CamelCase, Domain, SkewerCase};
use crate::error::MsgErr;
use crate::kind::{specific_text, Specific};
use crate::kinds::{base_kind_name, kind_parts_text, named_base_kind, BaseKind, KindParts};
use crate::parse::{parse_semver, semver_parse, version_end, version_end_exec};
use crate::point::VersionModel;
use crate::point::version_text;
use crate::star::lemma_decimal_digits;
use crate::text::{
    char_at, chars_of, decimal, in_class, is_alnum, is_at, is_lower, is_skewer_char, is_upper,
    is_var_tail_char, lemma_len_fits, lemma_run_end, lemma_run_over, lower, run_end, scan,
    string_of, upper, CharClass,
};

verus! {

/// The abstract value of a specific.
pub struct SpecificModel {
    pub provider: Seq<char>,
    pub vendor: Seq<char>,
    pub product: Seq<char>,
    pub variant: Seq<char>,
    pub version: VersionModel,
}

pub open spec fn specific_model(s: Specific) -> SpecificModel {
    SpecificModel {
        provider: s.provider@,
        vendor: s.vendor@,
        product: s.product@,
        variant: s.variant@,
        version: s.version@,
    }
}

/// The abstract value of kind parts.
pub struct PartsModel {
    pub base: BaseKind,
    pub sub: Option<Seq<char>>,
    pub specific: Option<SpecificModel>,
}

pub open spec fn parts_model(p: KindParts) -> PartsModel {
    PartsModel {
        base: p.base,
        sub: match p.sub {
            Some(c) => Some(c@),
            None => None,
        },
        specific: match p.specific {
            Some(s) => Some(specific_model(s)),
            None => None,
        },
    }
}

/// The end of the camel case name at `i`: an uppercase letter and then letters and digits;
/// `i` itself where none starts there.
pub open spec fn camel_end(s: Seq<char>, i: int) -> int {
    if 0 <= i < s.len() && is_upper(s[i]) {
        run_end(s, i + 1, CharClass::Alnum)
    } else {
        i
    }
}

/// The end of the skewer case name at `i`: a lowercase letter and then letters, digits and
/// dashes; `i` itself where none starts there.
pub open spec fn skewer_end(s: Seq<char>, i: int) -> int {
    if 0 <= i < s.len() && is_lower(s[i]) {
        run_end(s, i + 1, CharClass::VarTail)
    } else {
        i
    }
}

/// The end of the domain at `i`: lowercase letters, digits, dashes and dots.
pub open spec fn domain_end(s: Seq<char>, i: int) -> int {
    run_end(s, i, CharClass::Domain)
}

/// The specific at `i`: two domains, two skewer case names and a version that semver reads,
/// separated by `:`; with the position after it.
pub open spec fn specific_at(s: Seq<char>, i: int) -> Option<(SpecificModel, int)> {
    let a = domain_end(s, i);
    let b = domain_end(s, a + 1);
    let c = skewer_end(s, b + 1);
    let d = skewer_end(s, c + 1);
    if a > i && char_at(s, a, ':') && b > a + 1 && char_at(s, b, ':') && c > b + 1 && char_at(
        s,
        c,
        ':',
    ) && d > c + 1 && char_at(s, d, ':') {
        match version_end(s, d + 1) {
            Some(e) => match semver_parse(s.subrange(d + 1, e)) {
                Some(v) => Some(
                    (
                        SpecificModel {
                            provider: s.subrange(i, a),
                            vendor: s.subrange(a + 1, b),
                            product: s.subrange(b + 1, c),
                            variant: s.subrange(c + 1, d),
                            version: v,
                        },
                        e,
                    ),
                ),
                None => None,
            },
            None => None,
        }
    } else {
        None
    }
}

/// The optional specific in angle brackets after a sub kind that ends at `e`, with the position
/// after it; nothing is taken where no whole `<specific>` stands there.
pub open spec fn opt_specific_at(s: Seq<char>, e: int) -> (Option<SpecificModel>, int) {
    if char_at(s, e, '<') {
        match specific_at(s, e + 1) {
            Some((m, g)) => if char_at(s, g, '>') {
                (Some(m), g + 1)
            } else {
                (None, e)
            },
            None => (None, e),
        }
    } else {
        (None, e)
    }
}

/// The sub kind, and a specific where there is one, in angle brackets at `c`, with the position
/// after them.
pub open spec fn sub_at(s: Seq<char>, c: int) -> Option<(Seq<char>, Option<SpecificModel>, int)> {
    if char_at(s, c, '<') && camel_end(s, c + 1) > c + 1 {
        let e = camel_end(s, c + 1);
        let f = opt_specific_at(s, e).1;
        if char_at(s, f, '>') {
            Some((s.subrange(c + 1, e), opt_specific_at(s, e).0, f + 1))
        } else {
            None
        }
    } else {
        None
    }
}

/// Kind parts at `i`: the name of a base kind, then optionally its sub kind and specific; with
/// the position after them.
pub open spec fn kind_parts_at(s: Seq<char>, i: int) -> Option<(PartsModel, int)> {
    let c = camel_end(s, i);
    if c > i {
        match named_base_kind(s.subrange(i, c)) {
            Some(b) => match sub_at(s, c) {
                Some((sub, sp, f)) => Some((PartsModel { base: b, sub: Some(sub), specific: sp }, f)),
                None => Some((PartsModel { base: b, sub: None, specific: None }, c)),
            },
            None => None,
        }
    } else {
        None
    }
}

/// Kind parts that take up the whole text.
pub open spec fn kind_parts_of(s: Seq<char>) -> Option<PartsModel> {
    match kind_parts_at(s, 0) {
        Some((m, e)) => if e == s.len() {
            Some(m)
        } else {
            None
        },
        None => None,
    }
}

pub fn camel_end_exec(cs: &Vec<char>, i: usize) -> (e: usize)
    requires
        i <= cs@.len(),
    ensures
        e == camel_end(cs@, i as int),
        i <= e <= cs@.len(),
{
    proof {
        lemma_len_fits(cs);
    }
    if i < cs.len() && upper(cs[i]) {
        scan(cs, i + 1, CharClass::Alnum)
    } else {
        i
    }
}

pub fn skewer_end_exec(cs: &Vec<char>, i: usize) -> (e: usize)
    requires
        i <= cs@.len(),
    ensures
        e == skewer_end(cs@, i as int),
        i <= e <= cs@.len(),
{
    proof {
        lemma_len_fits(cs);
    }
    if i < cs.len() && lower(cs[i]) {
        scan(cs, i + 1, CharClass::VarTail)
    } else {
        i
    }
}

proof fn lemma_camel_run(s: Seq<char>, i: int)
    requires
        0 <= i <= s.len(),
        camel_end(s, i) > i,
    ensures
        camel_ok(s.subrange(i, camel_end(s, i))),
        camel_end(s, i) <= s.len(),
{
    lemma_run_end(s, i + 1, CharClass::Alnum);
    let t = s.subrange(i, camel_end(s, i));
    assert forall|j: int| 1 <= j < t.len() implies is_alnum(#[trigger] t[j]) by {
        assert(t[j] == s[i + j]);
        assert(in_class(CharClass::Alnum, s[i + j]));
    }
}

proof fn lemma_skewer_run(s: Seq<char>, i: int)
    requires
        0 <= i <= s.len(),
        skewer_end(s, i) > i,
    ensures
        skewer_ok(s.subrange(i, skewer_end(s, i))),
        skewer_end(s, i) <= s.len(),
{
    lemma_run_end(s, i + 1, CharClass::VarTail);
    let t = s.subrange(i, skewer_end(s, i));
    assert forall|j: int| 1 <= j < t.len() implies is_var_tail_char(#[trigger] t[j]) by {
        assert(t[j] == s[i + j]);
        assert(in_class(CharClass::VarTail, s[i + j]));
    }
}

proof fn lemma_domain_run(s: Seq<char>, i: int)
    requires
        0 <= i <= s.len(),
        domain_end(s, i) > i,
    ensures
        domain_ok(s.subrange(i, domain_end(s, i))),
        domain_end(s, i) <= s.len(),
{
    lemma_run_end(s, i, CharClass::Domain);
    let t = s.subrange(i, domain_end(s, i));
    assert forall|j: int| 0 <= j < t.len() implies crate::text::is_domain_char(#[trigger] t[j]) by {
        assert(t[j] == s[i + j]);
        assert(in_class(CharClass::Domain, s[i + j]));
    }
}

/// Reads the camel case name from `i` to `e`.
fn camel_from(cs: &Vec<char>, i: usize, e: usize) -> (r: CamelCase)
    requires
        i < e,
        e == camel_end(cs@, i as int),
        i <= cs@.len(),
    ensures
        r@ == cs@.subrange(i as int, e as int),
{
    proof {
        lemma_camel_run(cs@, i as int);
    }
    let t = string_of(cs, i, e);
    CamelCase::from_str(t.as_str()).unwrap()
}

/// The specific at `i`, with the position after it.
pub fn specific_parse(cs: &Vec<char>, i: usize) -> (r: Option<(Specific, usize)>)
    requires
        i <= cs@.len(),
    ensures
        match specific_at(cs@, i as int) {
            Some((m, e)) => r matches Some((x, f)) && specific_model(x) == m && f == e,
            None => r is None,
        },
        r matches Some((_, f)) ==> i < f <= cs@.len(),
{
    proof {
        lemma_len_fits(cs);
    }
    let a = scan(cs, i, CharClass::Domain);
    if !(a > i && is_at(cs, a, ':')) {
        return None;
    }
    let b = scan(cs, a + 1, CharClass::Domain);
    if !(b > a + 1 && is_at(cs, b, ':')) {
        return None;
    }
    let c = skewer_end_exec(cs, b + 1);
    if !(c > b + 1 && is_at(cs, c, ':')) {
        return None;
    }
    let d = skewer_end_exec(cs, c + 1);
    if !(d > c + 1 && is_at(cs, d, ':')) {
        return None;
    }
    let e = match version_end_exec(cs, d + 1) {
        Some(e) => e,
        None => {
            return None;
        },
    };
    let vt = string_of(cs, d + 1, e);
    let version = match parse_semver(vt.as_str()) {
        Some(v) => v,
        None => {
            return None;
        },
    };
    proof {
        lemma_domain_run(cs@, i as int);
        lemma_domain_run(cs@, a + 1);
        lemma_skewer_run(cs@, b + 1);
        lemma_skewer_run(cs@, c + 1);
    }
    let provider = Domain::from_str(string_of(cs, i, a).as_str()).unwrap();
    let vendor = Domain::from_str(string_of(cs, a + 1, b).as_str()).unwrap();
    let product = SkewerCase::from_str(string_of(cs, b + 1, c).as_str()).unwrap();
    let variant = SkewerCase::from_str(string_of(cs, c + 1, d).as_str()).unwrap();
    Some((Specific { provider, vendor, product, variant, version }, e))
}

/// Kind parts at `i`, with the position after them.
pub fn kind_parts_parse(cs: &Vec<char>, i: usize) -> (r: Option<(KindParts, usize)>)
    requires
        i <= cs@.len(),
    ensures
        match kind_parts_at(cs@, i as int) {
            Some((m, e)) => r matches Some((x, f)) && parts_model(x) == m && f == e,
            None => r is None,
        },
{
    proof {
        lemma_len_fits(cs);
    }
    let c = camel_end_exec(cs, i);
    if c == i {
        return None;
    }
    let name = string_of(cs, i, c);
    let base = match BaseKind::from_str(name.as_str()) {
        Ok(b) => b,
        Err(_) => {
            return None;
        },
    };
    if !is_at(cs, c, '<') {
        return Some((KindParts { base, sub: None, specific: None }, c));
    }
    let e = camel_end_exec(cs, c + 1);
    if e == c + 1 {
        return Some((KindParts { base, sub: None, specific: None }, c));
    }
    let mut specific: Option<Specific> = None;
    let mut f = e;
    if is_at(cs, e, '<') {
        match specific_parse(cs, e + 1) {
            Some((sp, g)) => {
                if is_at(cs, g, '>') {
                    specific = Some(sp);
                    f = g + 1;
                }
            },
            None => {},
        }
    }
    if !is_at(cs, f, '>') {
        return Some((KindParts { base, sub: None, specific: None }, c));
    }
    let sub = camel_from(cs, c + 1, e);
    Some((KindParts { base, sub: Some(sub), specific }, f + 1))
}

impl KindParts {
    /// Reads a whole text as kind parts: `Base`, `Base<Sub>` or `Base<Sub<specific>>`.
    pub fn from_str(s: &str) -> (r: Result<KindParts, MsgErr>)
        ensures
            match kind_parts_of(s@) {
                Some(m) => r matches Ok(p) && parts_model(p) == m,
                None => r is Err,
            },
    {
        let cs = chars_of(s);
        match kind_parts_parse(&cs, 0) {
            Some((p, e)) => if e == cs.len() {
                Ok(p)
            } else {
                Err(MsgErr::from_500("unexpected text after kind"))
            },
            None => Err(MsgErr::from_500("expected kind parts")),
        }
    }
}

/// The camel case name at the start of `input`, and the rest of the text after it.
pub fn camel_case(input: &str) -> (r: Result<(String, CamelCase), MsgErr>)
    ensures
        camel_end(input@, 0) > 0 ==> (r matches Ok((rest, c)) && c@ == input@.subrange(
            0,
            camel_end(input@, 0),
        ) && rest@ == input@.subrange(camel_end(input@, 0), input@.len() as int)),
        camel_end(input@, 0) == 0 ==> r is Err,
{
    let cs = chars_of(input);
    let e = camel_end_exec(&cs, 0);
    if e == 0 {
        return Err(MsgErr::from_500("expected camel case"));
    }
    let c = camel_from(&cs, 0, e);
    Ok((string_of(&cs, e, cs.len()), c))
}

/// The skewer case name at the start of `input`, and the rest of the text after it.
pub fn skewer_case(input: &str) -> (r: Result<(String, SkewerCase), MsgErr>)
    ensures
        skewer_end(input@, 0) > 0 ==> (r matches Ok((rest, c)) && c@ == input@.subrange(
            0,
            skewer_end(input@, 0),
        ) && rest@ == input@.subrange(skewer_end(input@, 0), input@.len() as int)),
        skewer_end(input@, 0) == 0 ==> r is Err,
{
    let cs = chars_of(input);
    let e = skewer_end_exec(&cs, 0);
    if e == 0 {
        return Err(MsgErr::from_500("expected skewer case"));
    }
    proof {
        lemma_skewer_run(cs@, 0);
    }
    let c = SkewerCase::from_str(string_of(&cs, 0, e).as_str()).unwrap();
    Ok((string_of(&cs, e, cs.len()), c))
}

/// The domain at the start of `input`, and the rest of the text after it.
pub fn domain(input: &str) -> (r: Result<(String, Domain), MsgErr>)
    ensures
        domain_end(input@, 0) > 0 ==> (r matches Ok((rest, d)) && d@ == input@.subrange(
            0,
            domain_end(input@, 0),
        ) && rest@ == input@.subrange(domain_end(input@, 0), input@.len() as int)),
        domain_end(input@, 0) == 0 ==> r is Err,
{
    let cs = chars_of(input);
    let e = scan(&cs, 0, CharClass::Domain);
    if e == 0 {
        return Err(MsgErr::from_500("expected a domain"));
    }
    proof {
        lemma_domain_run(cs@, 0);
    }
    let d = Domain::from_str(string_of(&cs, 0, e).as_str()).unwrap();
    Ok((string_of(&cs, e, cs.len()), d))
}

/// The specific at the start of `input`, and the rest of the text after it.
pub fn specific(input: &str) -> (r: Result<(String, Specific), MsgErr>)
    ensures
        match specific_at(input@, 0) {
            Some((m, e)) => r matches Ok((rest, x)) && specific_model(x) == m && rest@
                == input@.subrange(e, input@.len() as int),
            None => r is Err,
        },
{
    let cs = chars_of(input);
    match specific_parse(&cs, 0) {
        Some((x, e)) => Ok((string_of(&cs, e, cs.len()), x)),
        None => Err(MsgErr::from_500("expected a specific")),
    }
}

/// Kind parts at the start of `input`, and the rest of the text after them.
pub fn kind_parts(input: &str) -> (r: Result<(String, KindParts), MsgErr>)
    ensures
        match kind_parts_at(input@, 0) {
            Some((m, e)) => r matches Ok((rest, x)) && parts_model(x) == m && rest@
                == input@.subrange(e, input@.len() as int),
            None => r is Err,
        },
{
    let cs = chars_of(input);
    match kind_parts_parse(&cs, 0) {
        Some((x, e)) => {
            proof {
                lemma_kind_parts_end(cs@, 0);
            }
            Ok((string_of(&cs, e, cs.len()), x))
        },
        None => Err(MsgErr::from_500("expected kind parts")),
    }
}

/// Reads a whole text as kind parts.
pub fn consume_kind(input: &str) -> (r: Result<KindParts, MsgErr>)
    ensures
        match kind_parts_of(input@) {
            Some(m) => r matches Ok(p) && parts_model(p) == m,
            None => r is Err,
        },
{
    KindParts::from_str(input)
}

/// Kind parts end within the text.
proof fn lemma_kind_parts_end(s: Seq<char>, i: int)
    requires
        0 <= i <= s.len(),
    ensures
        kind_parts_at(s, i) matches Some((_, e)) ==> e <= s.len(),
{
    let c = camel_end(s, i);
    if c > i {
        lemma_camel_run(s, i);
        if char_at(s, c, '<') && camel_end(s, c + 1) > c + 1 {
            lemma_camel_run(s, c + 1);
        }
    }
}

/// The names of the base kinds are camel case, and each reads back as its own base kind.
pub proof fn lemma_base_kind_name(b: BaseKind)
    ensures
        camel_ok(base_kind_name(b)),
        named_base_kind(base_kind_name(b)) == Some(b),
{
    reveal_strlit("Root");
    reveal_strlit("Space");
    reveal_strlit("UserBase");
    reveal_strlit("Base");
    reveal_strlit("User");
    reveal_strlit("App");
    reveal_strlit("Mechtron");
    reveal_strlit("FileSystem");
    reveal_strlit("File");
    reveal_strlit("Database");
    reveal_strlit("Repo");
    reveal_strlit("BundleSeries");
    reveal_strlit("Bundle");
    reveal_strlit("Artifact");
    reveal_strlit("Control");
    reveal_strlit("Portal");
    reveal_strlit("Star");
    reveal_strlit("Driver");
    reveal_strlit("Global");
    assert("Root"@.len() == 4 && "Root"@[0] == 'R' && "Root"@[1] == 'o');
    assert("Space"@.len() == 5 && "Space"@[0] == 'S' && "Space"@[1] == 'p');
    assert("UserBase"@.len() == 8 && "UserBase"@[0] == 'U' && "UserBase"@[1] == 's');
    assert("Base"@.len() == 4 && "Base"@[0] == 'B' && "Base"@[1] == 'a');
    assert("User"@.len() == 4 && "User"@[0] == 'U' && "User"@[1] == 's');
    assert("App"@.len() == 3 && "App"@[0] == 'A' && "App"@[1] == 'p');
    assert("Mechtron"@.len() == 8 && "Mechtron"@[0] == 'M' && "Mechtron"@[1] == 'e');
    assert("FileSystem"@.len() == 10 && "FileSystem"@[0] == 'F' && "FileSystem"@[1] == 'i');
    assert("File"@.len() == 4 && "File"@[0] == 'F' && "File"@[1] == 'i');
    assert("Database"@.len() == 8 && "Database"@[0] == 'D' && "Database"@[1] == 'a');
    assert("Repo"@.len() == 4 && "Repo"@[0] == 'R' && "Repo"@[1] == 'e');
    assert("BundleSeries"@.len() == 12 && "BundleSeries"@[0] == 'B' && "BundleSeries"@[1] == 'u');
    assert("Bundle"@.len() == 6 && "Bundle"@[0] == 'B' && "Bundle"@[1] == 'u');
    assert("Artifact"@.len() == 8 && "Artifact"@[0] == 'A' && "Artifact"@[1] == 'r');
    assert("Control"@.len() == 7 && "Control"@[0] == 'C' && "Control"@[1] == 'o');
    assert("Portal"@.len() == 6 && "Portal"@[0] == 'P' && "Portal"@[1] == 'o');
    assert("Star"@.len() == 4 && "Star"@[0] == 'S' && "Star"@[1] == 't');
    assert("Driver"@.len() == 6 && "Driver"@[0] == 'D' && "Driver"@[1] == 'r');
    assert("Global"@.len() == 6 && "Global"@[0] == 'G' && "Global"@[1] == 'l');
    match b {
        BaseKind::Root => {},
        BaseKind::Space => {},
        BaseKind::UserBase => {},
        BaseKind::Base => {},
        BaseKind::User => {},
        BaseKind::App => {},
        BaseKind::Mechtron => {},
        BaseKind::FileSystem => {},
        BaseKind::File => {},
        BaseKind::Database => {},
        BaseKind::Repo => {},
        BaseKind::BundleSeries => {},
        BaseKind::Bundle => {},
        BaseKind::Artifact => {},
        BaseKind::Control => {},
        BaseKind::Portal => {},
        BaseKind::Star => {},
        BaseKind::Driver => {},
        BaseKind::Global => {},
    }
}

/// A camel case name standing at `i` in `s`, followed by a character that is not a letter or a
/// digit, or by the end.
proof fn lemma_camel_over(s: Seq<char>, i: int, t: Seq<char>)
    requires
        0 <= i,
        i + t.len() <= s.len(),
        s.subrange(i, i + t.len()) == t,
        camel_ok(t),
        i + t.len() < s.len() ==> !is_alnum(s[i + t.len()]),
    ensures
        camel_end(s, i) == i + t.len(),
{
    assert(s[i] == t[0]);
    let u = t.subrange(1, t.len() as int);
    assert(s.subrange(i + 1, i + 1 + u.len()) =~= u);
    lemma_run_over(s, i + 1, u, CharClass::Alnum);
}

/// A skewer case name standing at `i` in `s`, followed by a character that is not a letter, a
/// digit or a dash, or by the end.
proof fn lemma_skewer_over(s: Seq<char>, i: int, t: Seq<char>)
    requires
        0 <= i,
        i + t.len() <= s.len(),
        s.subrange(i, i + t.len()) == t,
        skewer_ok(t),
        i + t.len() < s.len() ==> !is_var_tail_char(s[i + t.len()]),
    ensures
        skewer_end(s, i) == i + t.len(),
{
    assert(s[i] == t[0]);
    let u = t.subrange(1, t.len() as int);
    assert(s.subrange(i + 1, i + 1 + u.len()) =~= u);
    lemma_run_over(s, i + 1, u, CharClass::VarTail);
}

/// A version printed with no build and a prerelease of skewer characters, standing at `q` and
/// followed by the end or by a character that is not a skewer character: its text is where a
/// version's text ends.
pub proof fn lemma_version_over(s: Seq<char>, q: int, v: VersionModel)
    requires
        0 <= q,
        q + version_text(v).len() <= s.len(),
        s.subrange(q, q + version_text(v).len()) == version_text(v),
        q + version_text(v).len() < s.len() ==> !is_skewer_char(s[q + version_text(v).len()]),
        v.build.len() == 0,
        forall|j: int| 0 <= j < v.pre.len() ==> is_skewer_char(#[trigger] v.pre[j]),
    ensures
        version_end(s, q) == Some(q + version_text(v).len()),
{
    let d1s = decimal(v.major as nat);
    let d2s = decimal(v.minor as nat);
    let d3s = decimal(v.patch as nat);
    lemma_decimal_digits(v.major as nat);
    lemma_decimal_digits(v.minor as nat);
    lemma_decimal_digits(v.patch as nat);
    let vt = version_text(v);
    let l = vt.len() as int;
    let d1 = q + d1s.len();
    let d2 = d1 + 1 + d2s.len();
    let d3 = d2 + 1 + d3s.len();
    assert(vt.subrange(0, d1s.len() as int) =~= d1s);
    assert(vt[d1s.len() as int] == '.');
    assert(vt.subrange(d1 - q + 1, d2 - q) =~= d2s);
    assert(vt[d2 - q] == '.');
    assert(vt.subrange(d2 - q + 1, d3 - q) =~= d3s);
    assert forall|j: int| 0 <= j < l implies s[q + j] == #[trigger] vt[j] by {
        assert(s[q + j] == s.subrange(q, q + l)[j]);
    }
    assert(s.subrange(q, d1) =~= d1s);
    assert(s.subrange(d1 + 1, d2) =~= d2s);
    assert(s.subrange(d2 + 1, d3) =~= d3s);
    assert(s[d1] == vt[d1 - q]);
    assert(s[d2] == vt[d2 - q]);
    lemma_run_over(s, q, d1s, CharClass::Digit);
    lemma_run_over(s, d1 + 1, d2s, CharClass::Digit);
    if v.pre.len() > 0 {
        assert(vt[d3 - q] == '-');
        assert(s[d3] == vt[d3 - q]);
        lemma_run_over(s, d2 + 1, d3s, CharClass::Digit);
        let pre = v.pre;
        assert(vt.subrange(d3 - q + 1, l) =~= pre);
        assert(s.subrange(d3 + 1, d3 + 1 + pre.len()) =~= pre);
        assert(s[d3 + 1] == pre[0]);
        lemma_run_over(s, d3 + 1, pre, CharClass::Skewer);
    } else {
        assert(d3 == q + l);
        lemma_run_over(s, d2 + 1, d3s, CharClass::Digit);
        assert(!char_at(s, d3, '-'));
    }
}

/// A specific whose text reads back: names valid for their types, and a version that prints
/// with no build and a prerelease of skewer characters, and that semver reads back.
pub open spec fn specific_printable(sp: Specific) -> bool {
    &&& domain_ok(sp.provider@)
    &&& domain_ok(sp.vendor@)
    &&& skewer_ok(sp.product@)
    &&& skewer_ok(sp.variant@)
    &&& sp.version.build@.len() == 0
    &&& forall|j: int| 0 <= j < sp.version.pre@.len() ==> is_skewer_char(#[trigger] sp.version.pre@[j])
    &&& semver_parse(version_text(sp.version@)) == Some(sp.version@)
}

/// Kind parts whose text reads back: a sub kind in camel case, a specific only together with a
/// sub kind, and a specific that reads back.
pub open spec fn parts_printable(p: KindParts) -> bool {
    &&& p.sub matches Some(c) ==> camel_ok(c@)
    &&& p.sub is None ==> p.specific is None
    &&& p.specific matches Some(sp) ==> specific_printable(sp)
}

/// The text of a specific standing at `i`, followed by `>`, reads as that specific.
#[verifier::rlimit(40)]
proof fn lemma_specific_over(s: Seq<char>, i: int, sp: Specific)
    requires
        0 <= i,
        i + specific_text(sp).len() < s.len(),
        s.subrange(i, i + specific_text(sp).len()) == specific_text(sp),
        s[i + specific_text(sp).len()] == '>',
        specific_printable(sp),
    ensures
        specific_at(s, i) == Some((specific_model(sp), i + specific_text(sp).len())),
{
    let st = specific_text(sp);
    let l = st.len() as int;
    let pv = sp.provider@;
    let vv = sp.vendor@;
    let pr = sp.product@;
    let va = sp.variant@;
    let vt = version_text(sp.version@);
    let a = i + pv.len();
    let b = a + 1 + vv.len();
    let c = b + 1 + pr.len();
    let d = c + 1 + va.len();
    let e = d + 1 + vt.len();
    assert(e == i + l);
    let x1 = pv + seq![':'];
    let x2 = x1 + vv + seq![':'];
    let x3 = x2 + pr + seq![':'];
    let x4 = x3 + va + seq![':'];
    assert(st =~= x4 + vt);
    assert(x4.subrange(0, x3.len() as int) =~= x3);
    assert(x3.subrange(0, x2.len() as int) =~= x2);
    assert(x2.subrange(0, x1.len() as int) =~= x1);
    assert forall|j: int| 0 <= j < l implies s[i + j] == #[trigger] st[j] by {
        assert(s[i + j] == s.subrange(i, i + l)[j]);
    }
    assert forall|k: int| 0 <= k < vv.len() implies st[a + 1 - i + k] == #[trigger] vv[k] by {
        assert(st[a + 1 - i + k] == x4[a + 1 - i + k]);
        assert(x4[a + 1 - i + k] == x3[a + 1 - i + k]);
        assert(x3[a + 1 - i + k] == x2[a + 1 - i + k]);
    }
    assert forall|k: int| 0 <= k < pr.len() implies st[b + 1 - i + k] == #[trigger] pr[k] by {
        assert(st[b + 1 - i + k] == x4[b + 1 - i + k]);
        assert(x4[b + 1 - i + k] == x3[b + 1 - i + k]);
    }
    assert forall|k: int| 0 <= k < va.len() implies st[c + 1 - i + k] == #[trigger] va[k] by {
        assert(st[c + 1 - i + k] == x4[c + 1 - i + k]);
    }
    assert(x4.len() == d + 1 - i);
    assert forall|k: int| 0 <= k < vt.len() implies st[d + 1 - i + k] == #[trigger] vt[k] by {
        assert(st[x4.len() + k] == vt[k]);
    }
    assert(s.subrange(i, a) =~= pv);
    assert(s[a] == st[a - i]);
    assert forall|k: int| 0 <= k < vv.len() implies s[a + 1 + k] == #[trigger] vv[k] by {
        assert(s[i + (a + 1 - i + k)] == st[a + 1 - i + k]);
    }
    assert(s.subrange(a + 1, b) =~= vv);
    assert(s[b] == st[b - i]);
    assert forall|k: int| 0 <= k < pr.len() implies s[b + 1 + k] == #[trigger] pr[k] by {
        assert(s[i + (b + 1 - i + k)] == st[b + 1 - i + k]);
    }
    assert(s.subrange(b + 1, c) =~= pr);
    assert(s[c] == st[c - i]);
    assert forall|k: int| 0 <= k < va.len() implies s[c + 1 + k] == #[trigger] va[k] by {
        assert(s[i + (c + 1 - i + k)] == st[c + 1 - i + k]);
    }
    assert(s.subrange(c + 1, d) =~= va);
    assert(s[d] == st[d - i]);
    assert forall|k: int| 0 <= k < vt.len() implies s[d + 1 + k] == #[trigger] vt[k] by {
        assert(s[i + (d + 1 - i + k)] == st[d + 1 - i + k]);
    }
    assert(s.subrange(d + 1, e) =~= vt);
    lemma_run_over(s, i, pv, CharClass::Domain);
    lemma_run_over(s, a + 1, vv, CharClass::Domain);
    lemma_skewer_over(s, b + 1, pr);
    lemma_skewer_over(s, c + 1, va);
    lemma_version_over(s, d + 1, sp.version@);
}

/// Kind parts read back from their own text as the same parts.
pub proof fn law_kind_parts_roundtrip(p: KindParts)
    requires
        parts_printable(p),
    ensures
        kind_parts_of(kind_parts_text(p)) == Some(parts_model(p)),
{
    let t = kind_parts_text(p);
    let name = base_kind_name(p.base);
    let n = name.len() as int;
    lemma_base_kind_name(p.base);
    assert(t.subrange(0, n) =~= name);
    lemma_camel_over(t, 0, name);
    match p.sub {
        None => {
            assert(t =~= name);
        },
        Some(sub) => {
            let e = n + 1 + sub@.len();
            assert(t[n] == '<');
            assert(t.subrange(n + 1, e) =~= sub@);
            match p.specific {
                None => {
                    assert(t[e] == '>');
                    lemma_camel_over(t, n + 1, sub@);
                    assert(t.len() == e + 1);
                },
                Some(sp) => {
                    let st = specific_text(sp);
                    let g = e + 1 + st.len();
                    assert(t[e] == '<');
                    lemma_camel_over(t, n + 1, sub@);
                    assert(t.subrange(e + 1, g) =~= st);
                    assert(t[g] == '>');
                    assert(t[g + 1] == '>');
                    lemma_specific_over(t, e + 1, sp);
                    assert(t.len() == g + 2);
                },
            }
        },
    }
}

} // verus!
