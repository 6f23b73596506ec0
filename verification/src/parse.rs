//! The grammar of points: routes, segments, variables and versions, as functions on characters.
use vstd::prelude::*;
use std::ops::Range;
use crate::error::MsgErr;
use crate::errreport::{context_error, create_err_report, err_report_of, is_context_error, is_err_report};
use crate::kind::{semver_build_accepts, semver_pre_accepts};
use crate::point::{
    PointCtx, PointModel, PointSegVar, PointVar, Point, PointDef, RouteModel, RouteSeg,
    RouteSegVar, SegModel, Trace, VarModel, Variable, Version, VersionModel, version_text,
    view_segs,
};
use crate::text::{
    alpha, char_at, chars_of, digit, is_alpha, is_digit, is_lower, is_multispace, lemma_run_end,
    lower, multispace, run_end, lemma_len_fits, is_skewer_char, skewer_char, file_char, starts_at,
    string_of, has_at, is_at, scan, CharClass,
};

verus! {

/// The outcome of a step of the grammar: a value and the position after it, no match
/// (another alternative may be tried), or a hard failure.
pub enum Step<T> {
    Done(T, int),
    Miss,
    Fail,
}

/// The executable counterpart of `Step`.
pub enum Outcome<T> {
    Done(T, usize),
    Miss,
    Fail,
}

/// A finished step never goes past the end of the text.
pub open spec fn within<T>(o: Outcome<T>, n: int) -> bool {
    o matches Outcome::Done(_, e) ==> e <= n
}

pub open spec fn agrees<T: View>(o: Outcome<T>, st: Step<T::V>) -> bool {
    match (o, st) {
        (Outcome::Done(v, e), Step::Done(m, f)) => v@ == m && e as int == f,
        (Outcome::Miss, Step::Miss) => true,
        (Outcome::Fail, Step::Fail) => true,
        _ => false,
    }
}

/// The name of what semver's parser makes of a text; `None` where it refuses it.
pub uninterp spec fn semver_parse(s: Seq<char>) -> Option<VersionModel>;

/// A version as its model.
pub open spec fn opt_version_view(r: Option<Version>) -> Option<VersionModel> {
    match r {
        Some(v) => Some(v@),
        None => None,
    }
}

/// The reading `r` of the text `s` is the version whose text `s` is, where `s` is the text of a
/// version without prerelease and build.
pub open spec fn reads_plain(s: Seq<char>, r: Option<VersionModel>) -> bool {
    forall|v: VersionModel|
        #![trigger version_text(v)]
        v.pre.len() == 0 && v.build.len() == 0 && s == version_text(v) ==> r == Some(v)
}

/// Parses a semantic version with semver's `Version::parse`.
///
/// The contract claims that the result is the name `semver_parse` of the text, and that a
/// version semver accepts prints back as the same text: semver keeps the prerelease and
/// build identifiers as written and refuses numbers with leading zeros, and that its
/// prerelease and build texts are ones semver's `Prerelease::new` and `BuildMetadata::new`
/// accept, as they are the texts semver read them from. It also claims that semver reads the
/// text `major.minor.patch` of every version without prerelease and build (each number in
/// decimal without leading zeros) as that version.
#[verifier::external_body]
pub(crate) fn parse_semver(s: &str) -> (r: Option<Version>)
    ensures
        r is None <==> semver_parse(s@) is None,
        r matches Some(v) ==> semver_parse(s@) == Some(v@) && version_text(v@) == s@,
        r matches Some(v) ==> semver_pre_accepts(v.pre@) && semver_build_accepts(v.build@),
        reads_plain(s@, opt_version_view(r)),
{
    match semver::Version::parse(s) {
        Ok(v) => Some(
            Version {
                major: v.major,
                minor: v.minor,
                patch: v.patch,
                pre: v.pre.as_str().to_string(),
                build: v.build.as_str().to_string(),
            },
        ),
        Err(_) => None,
    }
}

impl Version {
    /// Reads a version; semver decides which texts are versions.
    pub fn from_str(s: &str) -> (r: Result<Version, MsgErr>)
        ensures
            r is Ok <==> semver_parse(s@) is Some,
            r matches Ok(v) ==> semver_parse(s@) == Some(v@) && version_text(v@) == s@,
            reads_plain(s@, match r {
                Ok(v) => Some(v@),
                Err(_) => None,
            }),
    {
        match parse_semver(s) {
            Some(v) => Ok(v),
            None => Err(MsgErr::from_500("could not parse version")),
        }
    }
}

/// End of a point: the end of the text, white space, a quote, or one of `]){^[({%`.
pub open spec fn eop_at(s: Seq<char>, i: int) -> bool {
    i >= s.len() || {
        let c = s[i];
        is_multispace(c) || c == '"' || c == '\'' || c == ']' || c == ')' || c == '}' || c == '^'
            || c == '[' || c == '(' || c == '{' || c == '%'
    }
}

/// End of a segment: the end of the text, `/`, `:`, `%`, a space or a tab.
pub open spec fn eos_at(s: Seq<char>, i: int) -> bool {
    i >= s.len() || {
        let c = s[i];
        c == '/' || c == ':' || c == '%' || c == ' ' || c == '\t'
    }
}

/// End of a mesh segment: `:` or the end of the point.
pub open spec fn mesh_eos_at(s: Seq<char>, i: int) -> bool {
    char_at(s, i, ':') || eop_at(s, i)
}

/// `..` occurs somewhere at or after `i`.
pub open spec fn dotdot_from(s: Seq<char>, i: int) -> bool {
    exists|k: int| i <= k && k + 1 < s.len() && #[trigger] s[k] == '.' && s[k + 1] == '.'
}

pub open spec fn trace_of(start: int, end: int) -> Trace {
    Trace { range: Range { start: start as usize, end: end as usize } }
}

/// A variable reference `${name}` at `i`: the name is a lowercase letter followed by letters,
/// digits and dashes.  A `$` that does not open a well formed reference is a failure.
pub open spec fn var_at(s: Seq<char>, i: int) -> Step<VarModel> {
    if !char_at(s, i, '$') {
        Step::Miss
    } else if char_at(s, i + 1, '{') && i + 2 < s.len() && is_lower(s[i + 2]) {
        let e = run_end(s, i + 3, CharClass::VarTail);
        if char_at(s, e, '}') {
            Step::Done(VarModel { name: s.subrange(i + 2, e), trace: trace_of(i, e + 1) }, e + 1)
        } else {
            Step::Fail
        }
    } else {
        Step::Fail
    }
}

/// A route other than the local one at `i`: `[<star>]`, `[tag]`, a domain, `GLOBAL` or `LOCAL`.
pub open spec fn other_route_at(s: Seq<char>, i: int) -> Step<RouteModel> {
    let sys_end = run_end(s, i + 2, CharClass::SysRoute);
    let tag_end = run_end(s, i + 1, CharClass::Skewer);
    let dom_end = run_end(s, i, CharClass::Domain);
    if starts_at(s, i, "[<"@) && sys_end > i + 2 && starts_at(s, sys_end, ">]"@) {
        Step::Done(RouteModel::Tag(s.subrange(i + 2, sys_end)), sys_end + 2)
    } else if char_at(s, i, '[') && tag_end > i + 1 && char_at(s, tag_end, ']') {
        Step::Done(RouteModel::Tag(s.subrange(i + 1, tag_end)), tag_end + 1)
    } else if dom_end > i {
        Step::Done(RouteModel::Domain(s.subrange(i, dom_end)), dom_end)
    } else if starts_at(s, i, "GLOBAL"@) {
        Step::Done(RouteModel::Global, i + 6)
    } else if starts_at(s, i, "LOCAL"@) {
        Step::Done(RouteModel::Local, i + 5)
    } else {
        Step::Miss
    }
}

/// A route segment at `i`: a variable, `.`, another route, or else the local route with no text.
pub open spec fn route_seg_at(s: Seq<char>, i: int) -> (RouteModel, int) {
    match var_at(s, i) {
        Step::Done(v, e) => (RouteModel::Var(v), e),
        _ => if char_at(s, i, '.') {
            (RouteModel::This, i + 1)
        } else {
            match other_route_at(s, i) {
                Step::Done(r, e) => (r, e),
                _ => (RouteModel::This, i),
            }
        },
    }
}

/// The route of a point and where its segments begin: a route segment followed by `::`,
/// or else the local route.
pub open spec fn route_prefix(s: Seq<char>) -> (RouteModel, int) {
    let (r, e) = route_seg_at(s, 0);
    if starts_at(s, e, "::"@) {
        (r, e + 2)
    } else {
        (RouteModel::This, 0)
    }
}



/// A variable in place of a segment: failures are final.
pub open spec fn var_seg_at(s: Seq<char>, i: int) -> Step<SegModel> {
    match var_at(s, i) {
        Step::Done(v, e) => Step::Done(SegModel::Var(v), e),
        _ => Step::Fail,
    }
}

/// `..` ending a segment; after the first segment it reads as a reference to the working point.
pub open spec fn dotdot_seg(s: Seq<char>, i: int) -> bool {
    starts_at(s, i, ".."@) && eos_at(s, i + 2)
}

/// The first segment of a point: a variable, `..` (the working point's parent), `.` (the
/// working point) or a space name.  A space name starts with a letter, is a run of lowercase
/// letters, digits, dashes and dots ending the mesh segment, and no `..` may follow it anywhere.
pub open spec fn space_seg_at(s: Seq<char>, p: int) -> Step<SegModel> {
    let e = run_end(s, p, CharClass::Domain);
    if char_at(s, p, '$') {
        var_seg_at(s, p)
    } else if dotdot_seg(s, p) {
        Step::Done(SegModel::Pop(trace_of(p, p + 2)), p + 2)
    } else if char_at(s, p, '.') && eos_at(s, p + 1) {
        Step::Done(SegModel::Working(trace_of(p, p + 1)), p + 1)
    } else if 0 <= p < s.len() && is_alpha(s[p]) && !dotdot_from(s, p) && e > p && mesh_eos_at(
        s,
        e,
    ) {
        Step::Done(SegModel::Space(s.subrange(p, e)), e)
    } else {
        Step::Fail
    }
}

/// A segment delimiter: `/` or `:`.
pub open spec fn delim_at(s: Seq<char>, p: int) -> bool {
    char_at(s, p, '/') || char_at(s, p, ':')
}

/// Requires the end of a segment after a finished step; otherwise the step does not match.
pub open spec fn then_eos(s: Seq<char>, st: Step<SegModel>) -> Step<SegModel> {
    match st {
        Step::Done(x, e) => if eos_at(s, e) {
            Step::Done(x, e)
        } else {
            Step::Miss
        },
        other => other,
    }
}

/// What follows the delimiter of a base segment at `q`: a variable, `..`, or a skewer name that
/// starts with a lowercase letter and ends the mesh segment.
pub open spec fn base_inner(s: Seq<char>, q: int) -> Step<SegModel> {
    let e = run_end(s, q, CharClass::Skewer);
    if char_at(s, q, '$') {
        var_seg_at(s, q)
    } else if dotdot_seg(s, q) {
        Step::Done(SegModel::Working(trace_of(q, q + 2)), q + 2)
    } else if 0 <= q < s.len() && is_lower(s[q]) {
        if mesh_eos_at(s, e) {
            Step::Done(SegModel::Base(s.subrange(q, e)), e)
        } else {
            Step::Fail
        }
    } else {
        Step::Miss
    }
}

/// A base segment after its delimiter at `p`.
pub open spec fn base_item_at(s: Seq<char>, p: int) -> Step<SegModel> {
    if !delim_at(s, p) {
        Step::Miss
    } else {
        then_eos(s, base_inner(s, p + 1))
    }
}

/// The base segments from `p`: as many as match; `None` where one fails.
pub open spec fn bases_from(s: Seq<char>, p: int) -> Option<(Seq<SegModel>, int)>
    decreases s.len() - p,
{
    match base_item_at(s, p) {
        Step::Done(x, e) => if p < e <= s.len() {
            match bases_from(s, e) {
                Some((xs, f)) => Some((seq![x] + xs, f)),
                None => None,
            }
        } else {
            None
        },
        Step::Miss => Some((Seq::empty(), p)),
        Step::Fail => None,
    }
}

/// The text of a version at `q`: three dot separated numbers and an optional `-` and skewer
/// prerelease; where it does not end there the step fails.
pub open spec fn version_end(s: Seq<char>, q: int) -> Option<int> {
    let d1 = run_end(s, q, CharClass::Digit);
    let d2 = run_end(s, d1 + 1, CharClass::Digit);
    let d3 = run_end(s, d2 + 1, CharClass::Digit);
    if d1 > q && char_at(s, d1, '.') && d2 > d1 + 1 && char_at(s, d2, '.') && d3 > d2 + 1 {
        if char_at(s, d3, '-') && d3 + 1 < s.len() && is_skewer_char(s[d3 + 1]) {
            Some(run_end(s, d3 + 1, CharClass::Skewer))
        } else {
            Some(d3)
        }
    } else {
        None
    }
}

/// A version segment at `q`: its text must be a version semver accepts, followed by `:/`
/// or the end of the point.
pub open spec fn version_at(s: Seq<char>, q: int) -> Step<SegModel> {
    match version_end(s, q) {
        None => Step::Fail,
        Some(e) => match semver_parse(s.subrange(q, e)) {
            None => Step::Fail,
            Some(v) => if char_at(s, e, ':') {
                if char_at(s, e + 1, '/') {
                    Step::Done(SegModel::Version(v), e)
                } else {
                    Step::Fail
                }
            } else if eop_at(s, e) {
                Step::Done(SegModel::Version(v), e)
            } else {
                Step::Fail
            },
        },
    }
}

/// What follows the delimiter of a version segment at `q`: a variable, `..`, or a version.
pub open spec fn version_inner(s: Seq<char>, q: int) -> Step<SegModel> {
    if char_at(s, q, '$') {
        var_seg_at(s, q)
    } else if dotdot_seg(s, q) {
        Step::Done(SegModel::Working(trace_of(q, q + 2)), q + 2)
    } else if 0 <= q < s.len() && is_digit(s[q]) {
        version_at(s, q)
    } else {
        Step::Miss
    }
}

/// A version segment after its delimiter at `p`.
pub open spec fn version_item_at(s: Seq<char>, p: int) -> Step<SegModel> {
    if !delim_at(s, p) {
        Step::Miss
    } else {
        then_eos(s, version_inner(s, p + 1))
    }
}

/// A file or directory segment at `r`: a variable, `..`, or a run of file characters.
pub open spec fn file_like_at(s: Seq<char>, r: int, dir: bool) -> Step<SegModel> {
    let e = run_end(s, r, CharClass::File);
    if char_at(s, r, '$') {
        var_seg_at(s, r)
    } else if dotdot_seg(s, r) {
        Step::Done(SegModel::Working(trace_of(r, r + 2)), r + 2)
    } else if 0 <= r < s.len() && crate::text::is_file_char(s[r]) {
        if dir {
            Step::Done(SegModel::Dir(s.subrange(r, e)), e)
        } else {
            Step::Done(SegModel::File(s.subrange(r, e)), e)
        }
    } else {
        Step::Miss
    }
}

/// A directory segment at `r`, which a `/` must follow.
pub open spec fn dir_item_at(s: Seq<char>, r: int) -> Step<SegModel> {
    match file_like_at(s, r, true) {
        Step::Done(x, e) => if char_at(s, e, '/') {
            Step::Done(x, e + 1)
        } else {
            Step::Miss
        },
        other => other,
    }
}

/// The directory segments from `r`.
pub open spec fn dirs_from(s: Seq<char>, r: int) -> Option<(Seq<SegModel>, int)>
    decreases s.len() - r,
{
    match dir_item_at(s, r) {
        Step::Done(x, e) => if r < e <= s.len() {
            match dirs_from(s, e) {
                Some((xs, f)) => Some((seq![x] + xs, f)),
                None => None,
            }
        } else {
            None
        },
        Step::Miss => Some((Seq::empty(), r)),
        Step::Fail => None,
    }
}

/// The filesystem part of a point at `p`: `:/`, directories, an optional file, then the end of
/// the point.
pub open spec fn fs_at(s: Seq<char>, p: int) -> Step<Seq<SegModel>> {
    if !starts_at(s, p, ":/"@) {
        Step::Miss
    } else {
        match dirs_from(s, p + 2) {
            None => Step::Fail,
            Some((ds, f)) => match file_like_at(s, f, false) {
                Step::Fail => Step::Fail,
                Step::Miss => if eop_at(s, f) {
                    Step::Done(seq![SegModel::FilesystemRootDir] + ds, f)
                } else {
                    Step::Miss
                },
                Step::Done(x, g) => if eop_at(s, g) {
                    Step::Done(seq![SegModel::FilesystemRootDir] + ds + seq![x], g)
                } else {
                    Step::Miss
                },
            },
        }
    }
}

/// A point other than a root at the start of the text, ended by the end of the text or by a
/// character that may follow a point; with the position after it.
#[verifier::opaque]
pub open spec fn non_root_point_at(s: Seq<char>) -> Option<(PointModel, int)> {
    let (route, p0) = route_prefix(s);
    match space_seg_at(s, p0) {
        Step::Done(space, p1) => match bases_from(s, p1) {
            None => None,
            Some((bases, p2)) => {
                let ver = version_item_at(s, p2);
                if ver is Fail {
                    None
                } else {
                    let (vs, p3) = match ver {
                        Step::Done(v, e) => (seq![v], e),
                        _ => (Seq::empty(), p2),
                    };
                    let fs = fs_at(s, p3);
                    if fs is Fail {
                        None
                    } else {
                        let (fss, p4) = match fs {
                            Step::Done(x, e) => (x, e),
                            _ => (Seq::empty(), p3),
                        };
                        if eop_at(s, p4) {
                            Some(
                                (
                                    PointModel {
                                        route,
                                        segments: seq![space] + bases + vs + fss,
                                    },
                                    p4,
                                ),
                            )
                        } else {
                            None
                        }
                    }
                }
            },
        },
        _ => None,
    }
}

/// A point other than a root, read from the whole text.
pub open spec fn non_root_point(s: Seq<char>) -> Option<PointModel> {
    match non_root_point_at(s) {
        Some((m, e)) => if e == s.len() {
            Some(m)
        } else {
            None
        },
        None => None,
    }
}

/// The point, with variables and context references, at the start of the text, ended by the
/// end of the text or by a character that may follow a point; with the position after it.
/// After its route a point is either `ROOT` or its segments.
#[verifier::opaque]
pub open spec fn point_var_at(s: Seq<char>) -> Option<(PointModel, int)> {
    let (route, p) = route_prefix(s);
    if starts_at(s, p, "ROOT"@) {
        if eop_at(s, p + 4) {
            Some((PointModel { route, segments: Seq::empty() }, p + 4))
        } else {
            None
        }
    } else {
        non_root_point_at(s)
    }
}

/// The point, with variables and context references, that the whole text reads as; `None`
/// where the text is not a point.
pub open spec fn point_var_of(s: Seq<char>) -> Option<PointModel> {
    match point_var_at(s) {
        Some((m, e)) => if e == s.len() {
            Some(m)
        } else {
            None
        },
        None => None,
    }
}

pub fn eop(cs: &Vec<char>, i: usize) -> (b: bool)
    ensures
        b == eop_at(cs@, i as int),
{
    if i >= cs.len() {
        return true;
    }
    let c = cs[i];
    multispace(c) || c == '"' || c == '\'' || c == ']' || c == ')' || c == '}' || c == '^'
        || c == '[' || c == '(' || c == '{' || c == '%'
}

pub fn eos(cs: &Vec<char>, i: usize) -> (b: bool)
    ensures
        b == eos_at(cs@, i as int),
{
    if i >= cs.len() {
        return true;
    }
    let c = cs[i];
    c == '/' || c == ':' || c == '%' || c == ' ' || c == '\t'
}

pub fn mesh_eos(cs: &Vec<char>, i: usize) -> (b: bool)
    ensures
        b == mesh_eos_at(cs@, i as int),
{
    is_at(cs, i, ':') || eop(cs, i)
}

/// Whether `..` occurs at or after `i`.
pub fn has_dotdot(cs: &Vec<char>, i: usize) -> (b: bool)
    requires
        i <= cs@.len(),
    ensures
        b == dotdot_from(cs@, i as int),
{
    if cs.len() < 2 {
        return false;
    }
    let mut k = i;
    while k < cs.len() - 1
        invariant
            cs@.len() >= 2,
            i <= k <= cs@.len(),
            forall|j: int| i <= j < k && j + 1 < cs@.len() ==> !(#[trigger] cs@[j] == '.' && cs@[j + 1] == '.'),
        decreases cs@.len() - k,
    {
        if cs[k] == '.' && cs[k + 1] == '.' {
            return true;
        }
        k = k + 1;
    }
    proof {
        if dotdot_from(cs@, i as int) {
            let k2 = choose|k2: int| i <= k2 && k2 + 1 < cs@.len() && #[trigger] cs@[k2] == '.' && cs@[k2 + 1] == '.';
            assert(k2 < k);
        }
    }
    false
}

pub fn var_parse(cs: &Vec<char>, i: usize) -> (r: Outcome<Variable>)
    requires
        i <= cs@.len(),
    ensures
        agrees(r, var_at(cs@, i as int)),
        within(r, cs@.len() as int),
{
    proof {
        lemma_len_fits(cs);
    }
    if !is_at(cs, i, '$') {
        return Outcome::Miss;
    }
    if is_at(cs, i + 1, '{') && i + 2 < cs.len() && lower(cs[i + 2]) {
        let e = scan(cs, i + 3, CharClass::VarTail);
        if is_at(cs, e, '}') {
            let name = string_of(cs, i + 2, e);
            Outcome::Done(Variable { name, trace: Trace::new(i, e + 1) }, e + 1)
        } else {
            Outcome::Fail
        }
    } else {
        Outcome::Fail
    }
}

pub fn other_route_parse(cs: &Vec<char>, i: usize) -> (r: Outcome<RouteSeg>)
    requires
        i <= cs@.len(),
    ensures
        agrees(r, other_route_at(cs@, i as int)),
        within(r, cs@.len() as int),
{
    proof {
        lemma_len_fits(cs);
    }
    proof {
        reveal_strlit("[<");
        reveal_strlit(">]");
        reveal_strlit("GLOBAL");
        reveal_strlit("LOCAL");
    }
    if has_at(cs, i, "[<") {
        let e = scan(cs, i + 2, CharClass::SysRoute);
        if e > i + 2 && has_at(cs, e, ">]") {
            return Outcome::Done(RouteSeg::Tag(string_of(cs, i + 2, e)), e + 2);
        }
    }
    if is_at(cs, i, '[') {
        let e = scan(cs, i + 1, CharClass::Skewer);
        if e > i + 1 && is_at(cs, e, ']') {
            return Outcome::Done(RouteSeg::Tag(string_of(cs, i + 1, e)), e + 1);
        }
    }
    let e = scan(cs, i, CharClass::Domain);
    if e > i {
        return Outcome::Done(RouteSeg::Domain(string_of(cs, i, e)), e);
    }
    if has_at(cs, i, "GLOBAL") {
        return Outcome::Done(RouteSeg::Global, i + 6);
    }
    if has_at(cs, i, "LOCAL") {
        return Outcome::Done(RouteSeg::Local, i + 5);
    }
    Outcome::Miss
}

pub fn route_seg_parse(cs: &Vec<char>, i: usize) -> (r: (RouteSegVar, usize))
    requires
        i <= cs@.len(),
    ensures
        r.0@ == route_seg_at(cs@, i as int).0,
        r.1 as int == route_seg_at(cs@, i as int).1,
        r.1 <= cs@.len(),
{
    proof {
        lemma_len_fits(cs);
    }
    match var_parse(cs, i) {
        Outcome::Done(v, e) => {
            return (RouteSegVar::Var(v), e);
        },
        _ => {},
    }
    if is_at(cs, i, '.') {
        return (RouteSegVar::This, i + 1);
    }
    match other_route_parse(cs, i) {
        Outcome::Done(r, e) => {
            let rv = match r {
                RouteSeg::This => RouteSegVar::This,
                RouteSeg::Local => RouteSegVar::Local,
                RouteSeg::Remote => RouteSegVar::Remote,
                RouteSeg::Global => RouteSegVar::Global,
                RouteSeg::Domain(d) => RouteSegVar::Domain(d),
                RouteSeg::Tag(t) => RouteSegVar::Tag(t),
                RouteSeg::Star(s) => RouteSegVar::Star(s),
            };
            (rv, e)
        },
        _ => (RouteSegVar::This, i),
    }
}

pub fn route_prefix_parse(cs: &Vec<char>) -> (r: (RouteSegVar, usize))
    ensures
        r.0@ == route_prefix(cs@).0,
        r.1 as int == route_prefix(cs@).1,
        r.1 <= cs@.len(),
{
    proof {
        lemma_len_fits(cs);
    }
    proof {
        reveal_strlit("::");
    }
    let (route, e) = route_seg_parse(cs, 0);
    if has_at(cs, e, "::") {
        (route, e + 2)
    } else {
        (RouteSegVar::This, 0)
    }
}


pub fn var_seg_parse(cs: &Vec<char>, i: usize) -> (r: Outcome<PointSegVar>)
    requires
        i <= cs@.len(),
    ensures
        agrees(r, var_seg_at(cs@, i as int)),
        within(r, cs@.len() as int),
{
    match var_parse(cs, i) {
        Outcome::Done(v, e) => Outcome::Done(PointSegVar::Var(v), e),
        _ => Outcome::Fail,
    }
}

fn dotdot_seg_exec(cs: &Vec<char>, i: usize) -> (b: bool)
    requires
        i <= cs@.len(),
    ensures
        b == dotdot_seg(cs@, i as int),
        b ==> i + 2 <= cs@.len(),
{
    proof {
        reveal_strlit("..");
        lemma_len_fits(cs);
    }
    has_at(cs, i, "..") && eos(cs, i + 2)
}

pub fn space_seg_parse(cs: &Vec<char>, p: usize) -> (r: Outcome<PointSegVar>)
    requires
        p <= cs@.len(),
    ensures
        agrees(r, space_seg_at(cs@, p as int)),
        within(r, cs@.len() as int),
{
    proof {
        lemma_len_fits(cs);
    }
    if is_at(cs, p, '$') {
        return var_seg_parse(cs, p);
    }
    if dotdot_seg_exec(cs, p) {
        return Outcome::Done(PointSegVar::Pop(Trace::new(p, p + 2)), p + 2);
    }
    if is_at(cs, p, '.') && eos(cs, p + 1) {
        return Outcome::Done(PointSegVar::Working(Trace::new(p, p + 1)), p + 1);
    }
    let e = scan(cs, p, CharClass::Domain);
    if p < cs.len() && alpha(cs[p]) && !has_dotdot(cs, p) && e > p && mesh_eos(cs, e) {
        Outcome::Done(PointSegVar::Space(string_of(cs, p, e)), e)
    } else {
        Outcome::Fail
    }
}

fn finish_eos(cs: &Vec<char>, o: Outcome<PointSegVar>, Ghost(st): Ghost<Step<SegModel>>) -> (r: Outcome<PointSegVar>)
    requires
        within(o, cs@.len() as int),
        agrees(o, st),
    ensures
        agrees(r, then_eos(cs@, st)),
        within(r, cs@.len() as int),
        r matches Outcome::Done(_, e) ==> o matches Outcome::Done(_, e2) && e == e2,
{
    match o {
        Outcome::Done(x, e) => if eos(cs, e) {
            Outcome::Done(x, e)
        } else {
            Outcome::Miss
        },
        other => other,
    }
}

pub fn base_item_parse(cs: &Vec<char>, p: usize) -> (r: Outcome<PointSegVar>)
    requires
        p <= cs@.len(),
    ensures
        agrees(r, base_item_at(cs@, p as int)),
        within(r, cs@.len() as int),
        r matches Outcome::Done(_, e) ==> e > p,
{
    proof {
        lemma_len_fits(cs);
    }
    if !(is_at(cs, p, '/') || is_at(cs, p, ':')) {
        return Outcome::Miss;
    }
    let q = p + 1;
    let inner = if is_at(cs, q, '$') {
        var_seg_parse(cs, q)
    } else if dotdot_seg_exec(cs, q) {
        Outcome::Done(PointSegVar::Working(Trace::new(q, q + 2)), q + 2)
    } else if q < cs.len() && lower(cs[q]) {
        let e = scan(cs, q, CharClass::Skewer);
        if mesh_eos(cs, e) {
            Outcome::Done(PointSegVar::Base(string_of(cs, q, e)), e)
        } else {
            Outcome::Fail
        }
    } else {
        Outcome::Miss
    };
    proof {
        lemma_var_end(cs@, q as int);
        lemma_run_end(cs@, q as int, CharClass::Skewer);
    }
    finish_eos(cs, inner, Ghost(base_inner(cs@, q as int)))
}

proof fn lemma_var_end(s: Seq<char>, i: int)
    requires
        0 <= i,
    ensures
        var_at(s, i) matches Step::Done(_, e) ==> e > i,
{
    lemma_run_end(s, i + 3, CharClass::VarTail);
}

/// The base segments from `p`.
pub fn bases_parse(cs: &Vec<char>, p: usize) -> (r: Option<(Vec<PointSegVar>, usize)>)
    requires
        p <= cs@.len(),
    ensures
        match (r, bases_from(cs@, p as int)) {
            (Some((xs, f)), Some((ms, g))) => view_segs(xs@) == ms && f as int == g,
            (None, None) => true,
            _ => false,
        },
        r matches Some((_, f)) ==> p <= f <= cs@.len(),
{
    let mut acc: Vec<PointSegVar> = Vec::new();
    let mut q = p;
    loop
        invariant
            p <= q <= cs@.len(),
            match bases_from(cs@, q as int) {
                Some((xs, f)) => bases_from(cs@, p as int) == Some((view_segs(acc@) + xs, f)),
                None => bases_from(cs@, p as int) is None,
            },
        decreases cs@.len() - q,
    {
        match base_item_parse(cs, q) {
            Outcome::Done(x, e) => {
                proof {
                    let ghost old_acc = view_segs(acc@);
                    assert(view_segs(acc@.push(x)) =~= old_acc + seq![x@]);
                    match bases_from(cs@, e as int) {
                        Some((xs, f)) => {
                            assert(old_acc + (seq![x@] + xs) =~= (old_acc + seq![x@]) + xs);
                        },
                        None => {},
                    }
                }
                acc.push(x);
                q = e;
            },
            Outcome::Miss => {
                assert(view_segs(acc@) + Seq::<SegModel>::empty() =~= view_segs(acc@));
                return Some((acc, q));
            },
            Outcome::Fail => {
                return None;
            },
        }
    }
}

/// Where the text of a version that starts at `q` ends.
pub fn version_end_exec(cs: &Vec<char>, q: usize) -> (r: Option<usize>)
    requires
        q <= cs@.len(),
    ensures
        r is None <==> version_end(cs@, q as int) is None,
        r matches Some(e) ==> version_end(cs@, q as int) == Some(e as int),
        r matches Some(e) ==> q < e <= cs@.len(),
{
    proof {
        lemma_len_fits(cs);
    }
    let d1 = scan(cs, q, CharClass::Digit);
    if !(d1 > q && is_at(cs, d1, '.')) {
        return None;
    }
    let d2 = scan(cs, d1 + 1, CharClass::Digit);
    if !(d2 > d1 + 1 && is_at(cs, d2, '.')) {
        return None;
    }
    let d3 = scan(cs, d2 + 1, CharClass::Digit);
    if !(d3 > d2 + 1) {
        return None;
    }
    if is_at(cs, d3, '-') && d3 + 1 < cs.len() && skewer_char(cs[d3 + 1]) {
        let e = scan(cs, d3 + 1, CharClass::Skewer);
        Some(e)
    } else {
        Some(d3)
    }
}

fn string_from(cs: &Vec<char>, from: usize, to: usize) -> (r: String)
    requires
        from <= to <= cs@.len(),
    ensures
        r@ == cs@.subrange(from as int, to as int),
{
    string_of(cs, from, to)
}

pub fn version_parse(cs: &Vec<char>, q: usize) -> (r: Outcome<PointSegVar>)
    requires
        q <= cs@.len(),
    ensures
        agrees(r, version_at(cs@, q as int)),
        within(r, cs@.len() as int),
        r matches Outcome::Done(_, e) ==> e > q,
{
    proof {
        lemma_len_fits(cs);
    }
    match version_end_exec(cs, q) {
        None => Outcome::Fail,
        Some(e) => {
            let text = string_from(cs, q, e);
            match parse_semver(text.as_str()) {
                None => Outcome::Fail,
                Some(v) => if is_at(cs, e, ':') {
                    if is_at(cs, e + 1, '/') {
                        Outcome::Done(PointSegVar::Version(v), e)
                    } else {
                        Outcome::Fail
                    }
                } else if eop(cs, e) {
                    Outcome::Done(PointSegVar::Version(v), e)
                } else {
                    Outcome::Fail
                },
            }
        },
    }
}

pub fn version_item_parse(cs: &Vec<char>, p: usize) -> (r: Outcome<PointSegVar>)
    requires
        p <= cs@.len(),
    ensures
        agrees(r, version_item_at(cs@, p as int)),
        within(r, cs@.len() as int),
        r matches Outcome::Done(_, e) ==> e > p,
{
    proof {
        lemma_len_fits(cs);
    }
    if !(is_at(cs, p, '/') || is_at(cs, p, ':')) {
        return Outcome::Miss;
    }
    let q = p + 1;
    let inner = if is_at(cs, q, '$') {
        var_seg_parse(cs, q)
    } else if dotdot_seg_exec(cs, q) {
        Outcome::Done(PointSegVar::Working(Trace::new(q, q + 2)), q + 2)
    } else if q < cs.len() && digit(cs[q]) {
        version_parse(cs, q)
    } else {
        Outcome::Miss
    };
    proof {
        lemma_var_end(cs@, q as int);
    }
    finish_eos(cs, inner, Ghost(version_inner(cs@, q as int)))
}

pub fn file_like_parse(cs: &Vec<char>, r: usize, dir: bool) -> (o: Outcome<PointSegVar>)
    requires
        r <= cs@.len(),
    ensures
        agrees(o, file_like_at(cs@, r as int, dir)),
        within(o, cs@.len() as int),
        o matches Outcome::Done(_, e) ==> e > r,
{
    proof {
        lemma_len_fits(cs);
        lemma_var_end(cs@, r as int);
    }
    if is_at(cs, r, '$') {
        return var_seg_parse(cs, r);
    }
    if dotdot_seg_exec(cs, r) {
        return Outcome::Done(PointSegVar::Working(Trace::new(r, r + 2)), r + 2);
    }
    if r < cs.len() && file_char(cs[r]) {
        proof {
            lemma_run_end(cs@, r + 1, CharClass::File);
        }
        let e = scan(cs, r, CharClass::File);
        if dir {
            Outcome::Done(PointSegVar::Dir(string_of(cs, r, e)), e)
        } else {
            Outcome::Done(PointSegVar::File(string_of(cs, r, e)), e)
        }
    } else {
        Outcome::Miss
    }
}

pub fn dir_item_parse(cs: &Vec<char>, r: usize) -> (o: Outcome<PointSegVar>)
    requires
        r <= cs@.len(),
    ensures
        agrees(o, dir_item_at(cs@, r as int)),
        within(o, cs@.len() as int),
        o matches Outcome::Done(_, e) ==> e > r,
{
    proof {
        lemma_len_fits(cs);
    }
    match file_like_parse(cs, r, true) {
        Outcome::Done(x, e) => if is_at(cs, e, '/') {
            Outcome::Done(x, e + 1)
        } else {
            Outcome::Miss
        },
        Outcome::Miss => Outcome::Miss,
        Outcome::Fail => Outcome::Fail,
    }
}

/// The directory segments from `r`.
pub fn dirs_parse(cs: &Vec<char>, r: usize) -> (o: Option<(Vec<PointSegVar>, usize)>)
    requires
        r <= cs@.len(),
    ensures
        match (o, dirs_from(cs@, r as int)) {
            (Some((xs, f)), Some((ms, g))) => view_segs(xs@) == ms && f as int == g,
            (None, None) => true,
            _ => false,
        },
        o matches Some((_, f)) ==> r <= f <= cs@.len(),
{
    let mut acc: Vec<PointSegVar> = Vec::new();
    let mut q = r;
    loop
        invariant
            r <= q <= cs@.len(),
            match dirs_from(cs@, q as int) {
                Some((xs, f)) => dirs_from(cs@, r as int) == Some((view_segs(acc@) + xs, f)),
                None => dirs_from(cs@, r as int) is None,
            },
        decreases cs@.len() - q,
    {
        match dir_item_parse(cs, q) {
            Outcome::Done(x, e) => {
                proof {
                    let ghost old_acc = view_segs(acc@);
                    assert(view_segs(acc@.push(x)) =~= old_acc + seq![x@]);
                    match dirs_from(cs@, e as int) {
                        Some((xs, f)) => {
                            assert(old_acc + (seq![x@] + xs) =~= (old_acc + seq![x@]) + xs);
                        },
                        None => {},
                    }
                }
                acc.push(x);
                q = e;
            },
            Outcome::Miss => {
                assert(view_segs(acc@) + Seq::<SegModel>::empty() =~= view_segs(acc@));
                return Some((acc, q));
            },
            Outcome::Fail => {
                return None;
            },
        }
    }
}


/// The filesystem part of a point at `p`.
pub fn fs_parse(cs: &Vec<char>, p: usize) -> (o: Outcome<Vec<PointSegVar>>)
    requires
        p <= cs@.len(),
    ensures
        match (o, fs_at(cs@, p as int)) {
            (Outcome::Done(xs, e), Step::Done(ms, f)) => view_segs(xs@) == ms && e as int == f,
            (Outcome::Miss, Step::Miss) => true,
            (Outcome::Fail, Step::Fail) => true,
            _ => false,
        },
        o matches Outcome::Done(_, e) ==> p <= e <= cs@.len(),
{
    proof {
        reveal_strlit(":/");
        lemma_len_fits(cs);
    }
    if !has_at(cs, p, ":/") {
        return Outcome::Miss;
    }
    match dirs_parse(cs, p + 2) {
        None => Outcome::Fail,
        Some((dirs, f)) => {
            let mut segs: Vec<PointSegVar> = Vec::new();
            segs.push(PointSegVar::FilesystemRootDir);
            let mut dirs = dirs;
            let ghost ds = view_segs(dirs@);
            segs.append(&mut dirs);
            assert(view_segs(segs@) =~= seq![SegModel::FilesystemRootDir] + ds);
            match file_like_parse(cs, f, false) {
                Outcome::Fail => Outcome::Fail,
                Outcome::Miss => if eop(cs, f) {
                    Outcome::Done(segs, f)
                } else {
                    Outcome::Miss
                },
                Outcome::Done(x, g) => if eop(cs, g) {
                    let ghost before = view_segs(segs@);
                    segs.push(x);
                    assert(view_segs(segs@) =~= before + seq![x@]);
                    Outcome::Done(segs, g)
                } else {
                    Outcome::Miss
                },
            }
        },
    }
}

/// A point other than a root at the start of `cs`, with the position after it.
pub fn non_root_parse_at(cs: &Vec<char>) -> (r: Option<(PointVar, usize)>)
    ensures
        match (r, non_root_point_at(cs@)) {
            (Some((p, e)), Some((m, f))) => p@ == m && e == f,
            (None, None) => true,
            _ => false,
        },
        r matches Some((_, e)) ==> e <= cs@.len(),
{
    reveal(non_root_point_at);
    let (route, p0) = route_prefix_parse(cs);
    match space_seg_parse(cs, p0) {
        Outcome::Done(space, p1) => match bases_parse(cs, p1) {
            None => None,
            Some((bases, p2)) => {
                let ghost bm = view_segs(bases@);
                let mut segments: Vec<PointSegVar> = Vec::new();
                segments.push(space);
                let mut bases = bases;
                segments.append(&mut bases);
                let ghost after_bases = view_segs(segments@);
                assert(after_bases =~= seq![space@] + bm);
                let p3 = match version_item_parse(cs, p2) {
                    Outcome::Fail => {
                        return None;
                    },
                    Outcome::Done(v, e) => {
                        segments.push(v);
                        assert(view_segs(segments@) =~= after_bases + seq![v@]);
                        e
                    },
                    Outcome::Miss => {
                        assert(view_segs(segments@) =~= after_bases + Seq::<SegModel>::empty());
                        p2
                    },
                };
                let ghost after_version = view_segs(segments@);
                let p4 = match fs_parse(cs, p3) {
                    Outcome::Fail => {
                        return None;
                    },
                    Outcome::Done(fss, e) => {
                        let ghost fm = view_segs(fss@);
                        let mut fss = fss;
                        segments.append(&mut fss);
                        assert(view_segs(segments@) =~= after_version + fm);
                        e
                    },
                    Outcome::Miss => {
                        assert(view_segs(segments@) =~= after_version + Seq::<SegModel>::empty());
                        p3
                    },
                };
                if eop(cs, p4) {
                    Some((PointDef { route, segments }, p4))
                } else {
                    None
                }
            },
        },
        _ => None,
    }
}

/// The point, with variables and context references, at the start of `cs`, with the position
/// after it.
pub fn point_var_parse_at(cs: &Vec<char>) -> (r: Option<(PointVar, usize)>)
    ensures
        match (r, point_var_at(cs@)) {
            (Some((p, e)), Some((m, f))) => p@ == m && e == f,
            (None, None) => true,
            _ => false,
        },
        r matches Some((_, e)) ==> e <= cs@.len(),
{
    proof {
        reveal_strlit("ROOT");
        lemma_len_fits(cs);
        reveal(point_var_at);
    }
    let (route, p) = route_prefix_parse(cs);
    if has_at(cs, p, "ROOT") {
        if eop(cs, p + 4) {
            let segments: Vec<PointSegVar> = Vec::new();
            assert(view_segs(segments@) =~= Seq::<SegModel>::empty());
            Some((PointDef { route, segments }, p + 4))
        } else {
            None
        }
    } else {
        non_root_parse_at(cs)
    }
}

/// The point, with variables and context references, that all of `cs` reads as.
pub fn point_var_parse(cs: &Vec<char>) -> (r: Option<PointVar>)
    ensures
        match (r, point_var_of(cs@)) {
            (Some(p), Some(m)) => p@ == m,
            (None, None) => true,
            _ => false,
        },
{
    match point_var_parse_at(cs) {
        Some((p, e)) => if e == cs.len() {
            Some(p)
        } else {
            None
        },
        None => None,
    }
}

/// The point, with variables and context references, at the start of `input`, and the rest of
/// the text after it.
pub fn point_var(input: &str) -> (r: Result<(String, PointVar), MsgErr>)
    ensures
        match point_var_at(input@) {
            Some((m, e)) => r matches Ok((rest, p)) && p@ == m && rest@ == input@.subrange(
                e,
                input@.len() as int,
            ),
            None => r matches Err(e) && is_point_error(e, input@),
        },
{
    let cs = chars_of(input);
    match point_var_parse_at(&cs) {
        Some((p, e)) => Ok((string_of(&cs, e, cs.len()), p)),
        None => Err(point_error(input)),
    }
}

/// The error for a text that does not read as a point: the report of the `point` parse
/// context at the start of the text.
pub open spec fn is_point_error(e: MsgErr, input: Seq<char>) -> bool {
    e matches MsgErr::ParseErrs(p) && p.source matches Some(s) && s@ == input && is_err_report(
        p,
        0,
        err_report_of("point"@, input),
    )
}

fn point_error(input: &str) -> (r: MsgErr)
    ensures
        is_point_error(r, input@),
{
    create_err_report("point", 0, input, input.to_string())
}

/// Reads a whole text as a point that may hold variables and context references.
pub fn consume_point_var(input: &str) -> (r: Result<PointVar, MsgErr>)
    ensures
        match (r, point_var_of(input@)) {
            (Ok(p), Some(m)) => p@ == m,
            (Err(x), None) => match point_var_at(input@) {
                None => is_point_error(x, input@),
                Some((_, e)) => is_trailing_error(x, input@, e),
            },
            _ => false,
        },
{
    let cs = chars_of(input);
    match point_var_parse_at(&cs) {
        Some((p, e)) => if e == cs.len() {
            Ok(p)
        } else {
            Err(trailing_error(input, &cs, e))
        },
        None => Err(point_error(input)),
    }
}

/// The error for a point followed by text that is not part of it: the report of the end of
/// input that was expected where the point ends.
pub open spec fn is_trailing_error(x: MsgErr, input: Seq<char>, e: int) -> bool {
    is_context_error(x, input, "eof"@, e)
}

fn trailing_error(input: &str, cs: &Vec<char>, e: usize) -> (r: MsgErr)
    requires
        cs@ == input@,
        e <= cs@.len(),
    ensures
        is_trailing_error(r, input@, e as int),
{
    context_error(input, cs, e, "eof")
}

} // verus!

verus! {

/// The concrete point that the whole text reads as: a point with no variables and no
/// references to the working point.
pub open spec fn point_of(s: Seq<char>) -> Option<PointModel> {
    match point_var_of(s) {
        Some(m) => if crate::point::point_concrete(m) {
            Some(m)
        } else {
            None
        },
        None => None,
    }
}

/// Reads a whole text as a point that may refer to the working point but holds no variables.
pub fn consume_point_ctx(input: &str) -> (r: Result<PointCtx, MsgErr>)
    ensures
        match (r, point_of(input@)) {
            (Ok(p), Some(m)) => p@ == m,
            (Err(_), None) => true,
            _ => false,
        },
{
    let var = consume_point_var(input)?;
    var.collapse()
}

/// Reads a whole text as a concrete point.
pub fn consume_point(input: &str) -> (r: Result<Point, MsgErr>)
    ensures
        match (r, point_of(input@)) {
            (Ok(p), Some(m)) => p@ == m,
            (Err(_), None) => true,
            _ => false,
        },
{
    let ctx = consume_point_ctx(input)?;
    ctx.collapse()
}

/// The text of a version at the start of `input`: three dot separated numbers and an optional
/// `-` and skewer prerelease.
pub fn rec_version(input: &str) -> (r: Result<String, MsgErr>)
    ensures
        match version_end(input@, 0) {
            Some(e) => r matches Ok(t) && t@ == input@.subrange(0, e),
            None => r is Err,
        },
{
    let cs = chars_of(input);
    match version_end_exec(&cs, 0) {
        Some(e) => Ok(string_of(&cs, 0, e)),
        None => Err(MsgErr::from_500("expected a version")),
    }
}

/// The version at the start of `input`: its text as `rec_version` finds it, read by semver.
pub fn version(input: &str) -> (r: Result<Version, MsgErr>)
    ensures
        match version_end(input@, 0) {
            Some(e) => match semver_parse(input@.subrange(0, e)) {
                Some(v) => r matches Ok(x) && x@ == v,
                None => r is Err,
            },
            None => r is Err,
        },
{
    let text = rec_version(input)?;
    Version::from_str(text.as_str())
}

/// The run of class `k` at the start of `input`, which must not be empty.
fn prefix_run(input: &str, k: CharClass) -> (r: Result<String, MsgErr>)
    ensures
        run_end(input@, 0, k) > 0 ==> (r matches Ok(t) && t@ == input@.subrange(
            0,
            run_end(input@, 0, k),
        )),
        run_end(input@, 0, k) == 0 ==> r is Err,
{
    let cs = chars_of(input);
    let e = scan(&cs, 0, k);
    if e > 0 {
        Ok(string_of(&cs, 0, e))
    } else {
        Err(MsgErr::from_500("expected one or more characters"))
    }
}

/// The lowercase letters at the start of `input`: at least one.
pub fn lowercase1(input: &str) -> (r: Result<String, MsgErr>)
    ensures
        run_end(input@, 0, CharClass::Lower) > 0 ==> (r matches Ok(t) && t@ == input@.subrange(
            0,
            run_end(input@, 0, CharClass::Lower),
        )),
        run_end(input@, 0, CharClass::Lower) == 0 ==> r is Err,
{
    prefix_run(input, CharClass::Lower)
}

/// The lowercase letters, digits, dashes and dots at the start of `input`: at least one.
pub fn skewer_dot(input: &str) -> (r: Result<String, MsgErr>)
    ensures
        run_end(input@, 0, CharClass::Domain) > 0 ==> (r matches Ok(t) && t@ == input@.subrange(
            0,
            run_end(input@, 0, CharClass::Domain),
        )),
        run_end(input@, 0, CharClass::Domain) == 0 ==> r is Err,
{
    prefix_run(input, CharClass::Domain)
}

/// A variable name at the start of `input`: a lowercase letter, then lowercase letters,
/// digits, dashes and dots.
pub fn variable_name(input: &str) -> (r: Result<String, MsgErr>)
    ensures
        input@.len() > 0 && is_lower(input@[0]) ==> (r matches Ok(t) && t@ == input@.subrange(
            0,
            run_end(input@, 0, CharClass::Domain),
        )),
        !(input@.len() > 0 && is_lower(input@[0])) ==> r is Err,
{
    let cs = chars_of(input);
    if cs.len() > 0 && lower(cs[0]) {
        proof {
            lemma_run_end(cs@, 0, CharClass::Domain);
        }
        let e = scan(&cs, 0, CharClass::Domain);
        Ok(string_of(&cs, 0, e))
    } else {
        Err(MsgErr::from_500("expected a variable name"))
    }
}

} // verus!
