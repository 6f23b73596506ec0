//! Points read back from their own text: the printer and the grammar agree.
//!
//! A point made of a route, a space, base segments, an optional version and an optional
//! filesystem part with an optional file prints as a text that the grammar reads as the same
//! point, where its names keep to their grammar. So appending a segment to such a point gives
//! the point with that segment, and resolving one gives the point itself, or, for a variable,
//! the point with the variable's value in its place.
use vstd::prelude::*;
use crate::parse::{
    base_inner, base_item_at, bases_from, dir_item_at, dirs_from, dotdot_from, dotdot_seg,
    file_like_at, fs_at, non_root_point_at, other_route_at, point_of, point_var_at, route_prefix,
    semver_parse, space_seg_at, var_at, version_at, version_inner, version_item_at, Step,
};
use crate::point::{
    delim_text, point_concrete, point_string, post_fileroot, route_text, seg_concrete, seg_kind,
    seg_text, segs_text, version_text, PointModel, RouteModel, SegModel, VarModel, VersionModel,
};
use crate::kindparse::lemma_version_over;
use crate::resolve::{
    ctx_fold, ctx_resolved, ctx_step, lemma_ctx_fold_none, push_text, pushed, root_model, var_resolved,
    var_resolved_text, var_segs_fold,
};
use crate::star::lemma_decimal_digits;
use crate::text::{
    char_at, decimal, is_alpha, is_digit, is_domain_char, is_file_char, is_lower, is_skewer_char,
    lemma_run_over, run_end, starts_at, CharClass,
};

verus! {

/// No two dots stand next to each other.
pub open spec fn no_dotdot(t: Seq<char>) -> bool {
    forall|k: int| 0 <= k < t.len() - 1 ==> !(#[trigger] t[k] == '.' && t[k + 1] == '.')
}

/// A space name that reads back: a letter, then lowercase letters, digits, dashes and dots, with
/// no two dots in a row.
pub open spec fn space_ok(t: Seq<char>) -> bool {
    &&& t.len() > 0
    &&& is_alpha(t[0])
    &&& forall|k: int| 0 <= k < t.len() ==> is_domain_char(#[trigger] t[k])
    &&& no_dotdot(t)
}

/// A base name that reads back: a lowercase letter, then lowercase letters, digits and dashes.
pub open spec fn base_ok(t: Seq<char>) -> bool {
    &&& t.len() > 0
    &&& is_lower(t[0])
    &&& forall|k: int| 0 <= k < t.len() ==> is_skewer_char(#[trigger] t[k])
}

/// A file name that reads back: letters, digits, dashes, dots and underscores, with no two dots
/// in a row.
pub open spec fn file_ok(t: Seq<char>) -> bool {
    &&& t.len() > 0
    &&& forall|k: int| 0 <= k < t.len() ==> is_file_char(#[trigger] t[k])
    &&& no_dotdot(t)
}

/// A version that reads back: no build, a prerelease of skewer characters, and a text that
/// semver reads as the same version.
pub open spec fn version_ok(v: VersionModel) -> bool {
    &&& v.build.len() == 0
    &&& forall|j: int| 0 <= j < v.pre.len() ==> is_skewer_char(#[trigger] v.pre[j])
    &&& semver_parse(version_text(v)) == Some(v)
}

/// A route that reads back: the local route, `GLOBAL`, `LOCAL`, a domain that does not start
/// with a dot, or a tag in skewer characters.
pub open spec fn route_ok(r: RouteModel) -> bool {
    match r {
        RouteModel::This => true,
        RouteModel::Global => true,
        RouteModel::Local => true,
        RouteModel::Domain(d) => d.len() > 0 && d[0] != '.' && forall|k: int|
            0 <= k < d.len() ==> is_domain_char(#[trigger] d[k]),
        RouteModel::Tag(t) => t.len() > 0 && forall|k: int|
            0 <= k < t.len() ==> is_skewer_char(#[trigger] t[k]),
        _ => false,
    }
}

/// The base segments of a list of names.
pub open spec fn base_segs(bases: Seq<Seq<char>>) -> Seq<SegModel> {
    bases.map_values(|b: Seq<char>| SegModel::Base(b))
}

/// The version segment, if there is a version.
pub open spec fn version_segs(version: Option<VersionModel>) -> Seq<SegModel> {
    match version {
        Some(v) => seq![SegModel::Version(v)],
        None => Seq::empty(),
    }
}

/// The filesystem segments: none, the filesystem root, or the root and a file.
pub open spec fn fs_segs(fs: Option<Option<Seq<char>>>) -> Seq<SegModel> {
    match fs {
        Some(Some(f)) => seq![SegModel::FilesystemRootDir, SegModel::File(f)],
        Some(None) => seq![SegModel::FilesystemRootDir],
        None => Seq::empty(),
    }
}

/// The point with a route, a space, base segments, an optional version and an optional
/// filesystem part.
pub open spec fn mesh_point(
    route: RouteModel,
    space: Seq<char>,
    bases: Seq<Seq<char>>,
    version: Option<VersionModel>,
    fs: Option<Option<Seq<char>>>,
) -> PointModel {
    PointModel {
        route,
        segments: seq![SegModel::Space(space)] + base_segs(bases) + version_segs(version) + fs_segs(
            fs,
        ),
    }
}

/// The text of base segments: each name after a `:`.
pub open spec fn bases_text(bases: Seq<Seq<char>>) -> Seq<char>
    decreases bases.len(),
{
    if bases.len() == 0 {
        Seq::empty()
    } else {
        bases_text(bases.drop_last()) + seq![':'] + bases.last()
    }
}

/// The text of the version part.
pub open spec fn version_part(version: Option<VersionModel>) -> Seq<char> {
    match version {
        Some(v) => seq![':'] + version_text(v),
        None => Seq::empty(),
    }
}

/// The text of the filesystem part.
pub open spec fn fs_part(fs: Option<Option<Seq<char>>>) -> Seq<char> {
    match fs {
        Some(Some(f)) => seq![':', '/'] + f,
        Some(None) => seq![':', '/'],
        None => Seq::empty(),
    }
}

/// The text of a route in front of a point: nothing for the local route.
pub open spec fn route_part(r: RouteModel) -> Seq<char> {
    if r is This {
        Seq::empty()
    } else {
        route_text(r) + seq![':', ':']
    }
}

/// The text of the first `n` segments depends on those segments only.
proof fn lemma_segs_text_prefix(a: Seq<SegModel>, b: Seq<SegModel>, n: int)
    requires
        0 <= n <= a.len(),
        n <= b.len(),
        forall|j: int| 0 <= j < n ==> a[j] == b[j],
    ensures
        segs_text(a, n) == segs_text(b, n),
    decreases n,
{
    if n > 0 {
        lemma_segs_text_prefix(a, b, n - 1);
        assert(post_fileroot(a, n - 1) == post_fileroot(b, n - 1)) by {
            if post_fileroot(a, n - 1) {
                let j = choose|j: int| 0 <= j <= n - 1 && #[trigger] a[j] is FilesystemRootDir;
                assert(b[j] is FilesystemRootDir);
            }
            if post_fileroot(b, n - 1) {
                let j = choose|j: int| 0 <= j <= n - 1 && #[trigger] b[j] is FilesystemRootDir;
                assert(a[j] is FilesystemRootDir);
            }
        }
    }
}

/// The space and the bases print as the space name and then each base after a `:`.
proof fn lemma_mesh_text(space: Seq<char>, bases: Seq<Seq<char>>, rest: Seq<SegModel>)
    ensures
        segs_text(
            seq![SegModel::Space(space)] + base_segs(bases) + rest,
            1 + bases.len() as int,
        ) == space + bases_text(bases),
    decreases bases.len(),
{
    let segs = seq![SegModel::Space(space)] + base_segs(bases) + rest;
    if bases.len() == 0 {
        assert(segs_text(segs, 0) == Seq::<char>::empty());
        assert(segs[0] == SegModel::Space(space));
        assert(space =~= Seq::<char>::empty() + Seq::<char>::empty() + space);
    } else {
        let shorter = bases.drop_last();
        let segs2 = seq![SegModel::Space(space)] + base_segs(shorter) + rest;
        lemma_mesh_text(space, shorter, rest);
        lemma_segs_text_prefix(segs, segs2, bases.len() as int);
        assert forall|j: int| 0 <= j < bases.len() implies segs[j] == segs2[j] by {
            if j > 0 {
                assert(segs[j] == SegModel::Base(bases[j - 1]));
                assert(segs2[j] == SegModel::Base(shorter[j - 1]));
            }
        }
        lemma_segs_text_prefix(segs, segs2, bases.len() as int);
        let n = bases.len() as int;
        assert(segs[n] == SegModel::Base(bases.last()));
        assert(segs_text(segs, n + 1) == segs_text(segs, n) + delim_text(
            seg_kind(segs[n]),
            post_fileroot(segs, n),
        ) + seg_text(segs[n]));
        assert(space + bases_text(bases) =~= space + bases_text(shorter) + seq![':']
            + bases.last());
    }
}

/// After the first `k` segments, a version segment prints as `:` and the version's text.
proof fn lemma_version_step(segs: Seq<SegModel>, k: int, version: Option<VersionModel>)
    requires
        0 < k,
        k + version_segs(version).len() <= segs.len(),
        version matches Some(v) ==> segs[k] == SegModel::Version(v),
    ensures
        segs_text(segs, k + version_segs(version).len()) == segs_text(segs, k) + version_part(
            version,
        ),
{
    match version {
        Some(v) => {
            assert(segs_text(segs, k + 1) == segs_text(segs, k) + delim_text(
                seg_kind(segs[k]),
                post_fileroot(segs, k),
            ) + seg_text(segs[k]));
            assert(segs_text(segs, k) + version_part(version) =~= segs_text(segs, k) + seq![':']
                + version_text(v));
        },
        None => {
            assert(segs_text(segs, k) + version_part(version) =~= segs_text(segs, k));
        },
    }
}

/// After the first `m` segments, the filesystem part prints as `:/` and the file's name.
proof fn lemma_fs_step(segs: Seq<SegModel>, m: int, fs: Option<Option<Seq<char>>>)
    requires
        0 < m,
        m + fs_segs(fs).len() <= segs.len(),
        forall|j: int| 0 <= j < fs_segs(fs).len() ==> segs[m + j] == #[trigger] fs_segs(fs)[j],
    ensures
        segs_text(segs, m + fs_segs(fs).len()) == segs_text(segs, m) + fs_part(fs),
{
    match fs {
        Some(Some(f)) => {
            assert(segs[m] == fs_segs(fs)[0]);
            assert(segs[m + 1] == fs_segs(fs)[1]);
            assert(segs_text(segs, m + 1) == segs_text(segs, m) + delim_text(
                seg_kind(segs[m]),
                post_fileroot(segs, m),
            ) + seg_text(segs[m]));
            assert(segs_text(segs, m + 2) == segs_text(segs, m + 1) + delim_text(
                seg_kind(segs[m + 1]),
                post_fileroot(segs, m + 1),
            ) + seg_text(segs[m + 1]));
            assert(segs_text(segs, m) + fs_part(fs) =~= segs_text(segs, m) + seq![':'] + seq!['/']
                + f);
        },
        Some(None) => {
            assert(segs[m] == fs_segs(fs)[0]);
            assert(segs_text(segs, m + 1) == segs_text(segs, m) + delim_text(
                seg_kind(segs[m]),
                post_fileroot(segs, m),
            ) + seg_text(segs[m]));
            assert(segs_text(segs, m) + fs_part(fs) =~= segs_text(segs, m) + seq![':'] + seq!['/']);
        },
        None => {
            assert(segs_text(segs, m) + fs_part(fs) =~= segs_text(segs, m));
        },
    }
}

/// The text of a point built from parts: route, space, bases, version part and filesystem part.
pub proof fn lemma_mesh_point_text(
    route: RouteModel,
    space: Seq<char>,
    bases: Seq<Seq<char>>,
    version: Option<VersionModel>,
    fs: Option<Option<Seq<char>>>,
)
    ensures
        point_string(mesh_point(route, space, bases, version, fs)) == route_part(route) + space
            + bases_text(bases) + version_part(version) + fs_part(fs),
{
    let p = mesh_point(route, space, bases, version, fs);
    let segs = p.segments;
    let vs = version_segs(version);
    let fss = fs_segs(fs);
    let nb = bases.len() as int;
    let k = 1 + nb;
    let m = k + vs.len();
    assert(segs =~= seq![SegModel::Space(space)] + base_segs(bases) + (vs + fss));
    lemma_mesh_text(space, bases, vs + fss);
    if version is Some {
        assert(segs[k] == vs[0]);
    }
    lemma_version_step(segs, k, version);
    assert forall|j: int| 0 <= j < fss.len() implies segs[m + j] == #[trigger] fss[j] by {}
    lemma_fs_step(segs, m, fs);
    assert(segs.len() == m + fss.len());
    let body = space + bases_text(bases) + version_part(version) + fs_part(fs);
    assert(segs_text(segs, segs.len() as int) == body);
    if route is This {
        assert(route_part(route) + body =~= body);
    } else {
        assert(route_part(route) + body =~= route_text(route) + seq![':', ':'] + body);
    }
    assert(route_part(route) + space + bases_text(bases) + version_part(version) + fs_part(fs)
        =~= route_part(route) + body);
}

/// What may follow the base segments: the end, or a `:` before a version or the filesystem root.
pub open spec fn after_bases(s: Seq<char>, q: int) -> bool {
    q == s.len() || (char_at(s, q, ':') && q + 1 < s.len() && (is_digit(s[q + 1]) || s[q + 1]
        == '/'))
}

/// The text of base segments read from the front: the first name after a `:`, then the rest.
proof fn lemma_bases_text_front(bases: Seq<Seq<char>>)
    requires
        bases.len() > 0,
    ensures
        bases_text(bases) == seq![':'] + bases[0] + bases_text(bases.drop_first()),
    decreases bases.len(),
{
    if bases.len() == 1 {
        assert(bases.drop_last() =~= Seq::<Seq<char>>::empty());
        assert(bases.drop_first() =~= Seq::<Seq<char>>::empty());
        assert(bases_text(bases.drop_last()) == Seq::<char>::empty());
        assert(bases.last() == bases[0]);
        assert(bases_text(bases) == bases_text(bases.drop_last()) + seq![':'] + bases.last());
        assert(bases_text(bases) =~= seq![':'] + bases[0]);
    } else {
        let init = bases.drop_last();
        lemma_bases_text_front(init);
        assert(init.drop_first() =~= bases.drop_first().drop_last());
        assert(bases.drop_first().last() == bases.last());
        assert(bases_text(bases) =~= seq![':'] + bases[0] + bases_text(bases.drop_first()));
    }
}

/// Base segments standing at `p`, followed by the end or by a version or the filesystem root,
/// read as those segments.
proof fn lemma_bases_read(s: Seq<char>, p: int, bases: Seq<Seq<char>>)
    requires
        0 <= p,
        p + bases_text(bases).len() <= s.len(),
        s.subrange(p, p + bases_text(bases).len()) == bases_text(bases),
        forall|i: int| 0 <= i < bases.len() ==> base_ok(#[trigger] bases[i]),
        after_bases(s, p + bases_text(bases).len()),
    ensures
        bases_from(s, p) == Some((base_segs(bases), p + bases_text(bases).len())),
    decreases bases.len(),
{
    reveal_strlit("..");
    if bases.len() == 0 {
        assert(base_segs(bases) =~= Seq::<SegModel>::empty());
        if p < s.len() {
            if starts_at(s, p + 1, ".."@) {
                assert(s.subrange(p + 1, p + 3)[0] == s[p + 1]);
            }
            assert(!dotdot_seg(s, p + 1));
            assert(base_inner(s, p + 1) is Miss);
        }
        assert(base_item_at(s, p) is Miss);
    } else {
        lemma_bases_text_front(bases);
        let b0 = bases[0];
        let rest = bases.drop_first();
        let bt = bases_text(bases);
        let rt = bases_text(rest);
        let e = p + 1 + b0.len();
        assert(bt =~= seq![':'] + b0 + rt);
        assert(s[p] == bt[0]);
        assert(s.subrange(p + 1, e) =~= b0) by {
            assert forall|j: int| 0 <= j < b0.len() implies s.subrange(p + 1, e)[j] == b0[j] by {
                assert(s[p + 1 + j] == bt[1 + j]);
            }
        }
        assert(s.subrange(e, e + rt.len()) =~= rt) by {
            assert forall|j: int| 0 <= j < rt.len() implies s.subrange(e, e + rt.len())[j]
                == rt[j] by {
                assert(s[e + j] == bt[1 + b0.len() + j]);
            }
        }
        assert(base_ok(b0));
        assert forall|i: int| 0 <= i < rest.len() implies base_ok(#[trigger] rest[i]) by {
            assert(rest[i] == bases[i + 1]);
        }
        if rt.len() > 0 {
            lemma_bases_text_front(rest);
            assert(rt[0] == ':');
            assert(s[e] == rt[0]);
        }
        assert(e < s.len() ==> s[e] == ':');
        lemma_run_over(s, p + 1, b0, CharClass::Skewer);
        assert(s[p + 1] == b0[0]);
        if starts_at(s, p + 1, ".."@) {
            assert(s.subrange(p + 1, p + 3)[0] == s[p + 1]);
        }
        assert(!dotdot_seg(s, p + 1));
        assert(base_inner(s, p + 1) == Step::Done(SegModel::Base(b0), e));
        assert(base_item_at(s, p) == Step::Done(SegModel::Base(b0), e));
        lemma_bases_read(s, e, rest);
        assert(base_segs(bases) =~= seq![SegModel::Base(b0)] + base_segs(rest));
    }
}

/// The filesystem part standing at `p` at the end of the text reads as its segments.
proof fn lemma_fs_read(s: Seq<char>, p: int, fs: Option<Option<Seq<char>>>)
    requires
        0 <= p,
        p + fs_part(fs).len() == s.len(),
        s.subrange(p, s.len() as int) == fs_part(fs),
        fs matches Some(Some(f)) ==> file_ok(f),
    ensures
        fs is None ==> fs_at(s, p) is Miss,
        fs is Some ==> fs_at(s, p) == Step::Done(fs_segs(fs), s.len() as int),
{
    reveal_strlit(":/");
    reveal_strlit("..");
    let ft = fs_part(fs);
    match fs {
        None => {},
        Some(file) => {
            assert(s[p] == ft[0]);
            assert(s[p + 1] == ft[1]);
            assert(s.subrange(p, p + 2) =~= ":/"@);
            let r = p + 2;
            match file {
                None => {
                    assert(r == s.len());
                    assert(dir_item_at(s, r) is Miss);
                    assert(dirs_from(s, r) == Some((Seq::<SegModel>::empty(), r)));
                    assert(seq![SegModel::FilesystemRootDir] + Seq::<SegModel>::empty() =~= fs_segs(
                        fs,
                    ));
                },
                Some(f) => {
                    assert(s.subrange(r, s.len() as int) =~= f) by {
                        assert forall|j: int| 0 <= j < f.len() implies s.subrange(
                            r,
                            s.len() as int,
                        )[j] == f[j] by {
                            assert(s[r + j] == ft[2 + j]);
                        }
                    }
                    assert(s[r] == f[0]);
                    lemma_run_over(s, r, f, CharClass::File);
                    if starts_at(s, r, ".."@) {
                        assert(s.subrange(r, r + 2)[0] == s[r]);
                        assert(s.subrange(r, r + 2)[1] == s[r + 1]);
                        assert(f[1] == s[r + 1]);
                    }
                    assert(!dotdot_seg(s, r));
                    assert(file_like_at(s, r, true) == Step::Done(SegModel::Dir(f), s.len() as int));
                    assert(dir_item_at(s, r) is Miss);
                    assert(dirs_from(s, r) == Some((Seq::<SegModel>::empty(), r)));
                    assert(file_like_at(s, r, false) == Step::Done(
                        SegModel::File(f),
                        s.len() as int,
                    ));
                    assert(seq![SegModel::FilesystemRootDir] + Seq::<SegModel>::empty() + seq![
                        SegModel::File(f),
                    ] =~= fs_segs(fs));
                },
            }
        },
    }
}

/// The version part standing at `p`, followed by the filesystem part up to the end of the
/// text, reads as its segment; where there is no version, no version is read.
proof fn lemma_version_read(
    s: Seq<char>,
    p: int,
    version: Option<VersionModel>,
    fs: Option<Option<Seq<char>>>,
)
    requires
        0 <= p,
        p + version_part(version).len() + fs_part(fs).len() == s.len(),
        s.subrange(p, s.len() as int) == version_part(version) + fs_part(fs),
        version matches Some(v) ==> version_ok(v),
    ensures
        version is None ==> version_item_at(s, p) is Miss,
        version matches Some(v) ==> version_item_at(s, p) == Step::Done(
            SegModel::Version(v),
            p + version_part(version).len(),
        ),
{
    reveal_strlit("..");
    let t = version_part(version) + fs_part(fs);
    let ft = fs_part(fs);
    let e = p + version_part(version).len();
    assert forall|j: int| 0 <= j < t.len() implies s[p + j] == #[trigger] t[j] by {
        assert(s[p + j] == s.subrange(p, s.len() as int)[j]);
    }
    if ft.len() > 0 {
        assert(ft[0] == ':' && ft[1] == '/');
        assert(s[e] == t[e - p]);
        assert(s[e + 1] == t[e - p + 1]);
    }
    match version {
        None => {
            if p < s.len() {
                assert(s[p + 1] == '/');
                if starts_at(s, p + 1, ".."@) {
                    assert(s.subrange(p + 1, p + 3)[0] == s[p + 1]);
                }
                assert(version_inner(s, p + 1) is Miss);
            }
        },
        Some(v) => {
            let vt = version_text(v);
            let q = p + 1;
            lemma_decimal_digits(v.major as nat);
            assert(vt[0] == decimal(v.major as nat)[0]);
            let vp = version_part(version);
            assert(vp =~= seq![':'] + vt);
            assert(t[0] == vp[0]);
            assert(t[1] == vp[1]);
            assert(s[p] == t[0]);
            assert(s[q] == t[1]);
            assert(s[p] == ':');
            assert(s[q] == vt[0]);
            assert(s.subrange(q, q + vt.len()) =~= vt) by {
                assert forall|j: int| 0 <= j < vt.len() implies s.subrange(q, q + vt.len())[j]
                    == vt[j] by {
                    assert(t[1 + j] == vp[1 + j]);
                    assert(s[q + j] == t[1 + j]);
                }
            }
            lemma_version_over(s, q, v);
            if starts_at(s, q, ".."@) {
                assert(s.subrange(q, q + 2)[0] == s[q]);
            }
            assert(version_at(s, q) == Step::Done(SegModel::Version(v), e));
            assert(version_inner(s, q) == Step::Done(SegModel::Version(v), e));
        },
    }
}

/// Joining two texts without two dots in a row, where no dot ends the first and starts the
/// second, gives a text without two dots in a row.
proof fn lemma_no_dotdot_concat(a: Seq<char>, b: Seq<char>)
    requires
        no_dotdot(a),
        no_dotdot(b),
        a.len() > 0 && b.len() > 0 ==> !(a.last() == '.' && b[0] == '.'),
    ensures
        no_dotdot(a + b),
{
    let c = a + b;
    assert forall|k: int| 0 <= k < c.len() - 1 implies !(#[trigger] c[k] == '.' && c[k + 1]
        == '.') by {
        if k < a.len() - 1 {
            assert(c[k] == a[k] && c[k + 1] == a[k + 1]);
        } else if k == a.len() - 1 {
            assert(c[k] == a.last() && c[k + 1] == b[0]);
        } else {
            assert(c[k] == b[k - a.len()] && c[k + 1] == b[k - a.len() + 1]);
        }
    }
}

/// A text with no dots has no two dots in a row.
proof fn lemma_no_dots(t: Seq<char>)
    requires
        forall|k: int| 0 <= k < t.len() ==> #[trigger] t[k] != '.',
    ensures
        no_dotdot(t),
{
}

/// The text of base segments holds no dot.
proof fn lemma_bases_no_dots(bases: Seq<Seq<char>>)
    requires
        forall|i: int| 0 <= i < bases.len() ==> base_ok(#[trigger] bases[i]),
    ensures
        forall|k: int| 0 <= k < bases_text(bases).len() ==> #[trigger] bases_text(bases)[k] != '.',
    decreases bases.len(),
{
    if bases.len() > 0 {
        let init = bases.drop_last();
        assert forall|i: int| 0 <= i < init.len() implies base_ok(#[trigger] init[i]) by {
            assert(init[i] == bases[i]);
        }
        lemma_bases_no_dots(init);
        let b = bases.last();
        assert(base_ok(b));
        let t = bases_text(bases);
        let it = bases_text(init);
        assert(t == it + seq![':'] + b);
        assert forall|k: int| 0 <= k < t.len() implies #[trigger] t[k] != '.' by {
            if k < it.len() {
                assert(t[k] == it[k]);
            } else if k == it.len() {
                assert(t[k] == ':');
            } else {
                assert(t[k] == b[k - it.len() - 1]);
                assert(is_skewer_char(b[k - it.len() - 1]));
            }
        }
    }
}

/// The text of a version part has no two dots in a row.
proof fn lemma_version_part_no_dotdot(version: Option<VersionModel>)
    requires
        version matches Some(v) ==> version_ok(v),
    ensures
        no_dotdot(version_part(version)),
{
    match version {
        None => {},
        Some(v) => {
            let d1 = decimal(v.major as nat);
            let d2 = decimal(v.minor as nat);
            let d3 = decimal(v.patch as nat);
            lemma_decimal_digits(v.major as nat);
            lemma_decimal_digits(v.minor as nat);
            lemma_decimal_digits(v.patch as nat);
            let tail = if v.pre.len() > 0 {
                seq!['-'] + v.pre
            } else {
                Seq::empty()
            };
            assert forall|k: int| 0 <= k < tail.len() implies #[trigger] tail[k] != '.' by {
                if k > 0 {
                    assert(tail[k] == v.pre[k - 1]);
                    assert(is_skewer_char(v.pre[k - 1]));
                }
            }
            assert forall|k: int| 0 <= k < d1.len() implies #[trigger] d1[k] != '.' by {
                assert(is_digit(d1[k]));
            }
            assert forall|k: int| 0 <= k < d2.len() implies #[trigger] d2[k] != '.' by {
                assert(is_digit(d2[k]));
            }
            assert forall|k: int| 0 <= k < d3.len() implies #[trigger] d3[k] != '.' by {
                assert(is_digit(d3[k]));
            }
            let a1 = seq![':'] + d1;
            assert forall|k: int| 0 <= k < a1.len() implies #[trigger] a1[k] != '.' by {
                if k > 0 {
                    assert(a1[k] == d1[k - 1]);
                }
            }
            let a2 = a1 + seq!['.'];
            lemma_no_dotdot_concat(a1, seq!['.']);
            assert(is_digit(d2[0]));
            lemma_no_dotdot_concat(a2, d2);
            let a3 = a2 + d2;
            assert(a3.last() == d2.last());
            assert(is_digit(d2[d2.len() - 1]));
            lemma_no_dotdot_concat(a3, seq!['.']);
            let a4 = a3 + seq!['.'];
            assert(is_digit(d3[0]));
            lemma_no_dotdot_concat(a4, d3);
            let a5 = a4 + d3;
            lemma_no_dotdot_concat(a5, tail);
            assert(version_part(version) =~= a5 + tail);
        },
    }
}

/// The text of a filesystem part has no two dots in a row.
proof fn lemma_fs_part_no_dotdot(fs: Option<Option<Seq<char>>>)
    requires
        fs matches Some(Some(f)) ==> file_ok(f),
    ensures
        no_dotdot(fs_part(fs)),
{
    match fs {
        Some(Some(f)) => {
            lemma_no_dotdot_concat(seq![':', '/'], f);
        },
        _ => {},
    }
}

/// What follows the bases: nothing, or `:` before a digit or `/`.
proof fn lemma_after_bases_shape(version: Option<VersionModel>, fs: Option<Option<Seq<char>>>)
    ensures
        ({
            let t = version_part(version) + fs_part(fs);
            t.len() == 0 || (t[0] == ':' && t.len() > 1 && (is_digit(t[1]) || t[1] == '/'))
        }),
{
    let t = version_part(version) + fs_part(fs);
    match version {
        Some(v) => {
            lemma_decimal_digits(v.major as nat);
            let vp = version_part(version);
            assert(vp =~= seq![':'] + version_text(v));
            assert(version_text(v)[0] == decimal(v.major as nat)[0]);
            assert(t[0] == vp[0] && t[1] == vp[1]);
        },
        None => {
            assert(t =~= fs_part(fs));
        },
    }
}

/// What follows the space: nothing, or `:` before a character other than `:`.
proof fn lemma_after_space_shape(
    bases: Seq<Seq<char>>,
    version: Option<VersionModel>,
    fs: Option<Option<Seq<char>>>,
)
    requires
        forall|i: int| 0 <= i < bases.len() ==> base_ok(#[trigger] bases[i]),
    ensures
        ({
            let t = bases_text(bases) + version_part(version) + fs_part(fs);
            t.len() == 0 || (t[0] == ':' && t.len() > 1 && t[1] != ':')
        }),
{
    let bt = bases_text(bases);
    let rest = version_part(version) + fs_part(fs);
    let t = bt + rest;
    lemma_after_bases_shape(version, fs);
    if bases.len() > 0 {
        lemma_bases_text_front(bases);
        assert(base_ok(bases[0]));
        assert(bt[0] == ':' && bt[1] == bases[0][0]);
        assert(t[0] == bt[0] && t[1] == bt[1]);
    } else {
        assert(t =~= rest);
    }
    assert(bt + version_part(version) + fs_part(fs) =~= t);
}

/// Past the route, no two dots stand in a row.
proof fn lemma_tail_no_dotdot(
    space: Seq<char>,
    bases: Seq<Seq<char>>,
    version: Option<VersionModel>,
    fs: Option<Option<Seq<char>>>,
)
    requires
        space_ok(space),
        forall|i: int| 0 <= i < bases.len() ==> base_ok(#[trigger] bases[i]),
        version matches Some(v) ==> version_ok(v),
        fs matches Some(Some(f)) ==> file_ok(f),
    ensures
        no_dotdot(space + bases_text(bases) + version_part(version) + fs_part(fs)),
{
    let bt = bases_text(bases);
    let vp = version_part(version);
    let fp = fs_part(fs);
    lemma_bases_no_dots(bases);
    lemma_no_dots(bt);
    lemma_version_part_no_dotdot(version);
    lemma_fs_part_no_dotdot(fs);
    if bases.len() > 0 {
        lemma_bases_text_front(bases);
    }
    lemma_no_dotdot_concat(space, bt);
    let a = space + bt;
    assert(a.len() > 0);
    if vp.len() > 0 {
        assert(vp[0] == ':');
    }
    lemma_no_dotdot_concat(a, vp);
    let b = a + vp;
    if fp.len() > 0 {
        assert(fp[0] == ':');
    }
    lemma_no_dotdot_concat(b, fp);
}

/// A space standing at `p`, with the rest of the point after it, reads as the space segment.
proof fn lemma_space_read(
    s: Seq<char>,
    p: int,
    space: Seq<char>,
    bases: Seq<Seq<char>>,
    version: Option<VersionModel>,
    fs: Option<Option<Seq<char>>>,
)
    requires
        0 <= p <= s.len(),
        s.subrange(p, s.len() as int) == space + bases_text(bases) + version_part(version)
            + fs_part(fs),
        space_ok(space),
        forall|i: int| 0 <= i < bases.len() ==> base_ok(#[trigger] bases[i]),
        version matches Some(v) ==> version_ok(v),
        fs matches Some(Some(f)) ==> file_ok(f),
    ensures
        space_seg_at(s, p) == Step::Done(SegModel::Space(space), p + space.len()),
{
    reveal_strlit("..");
    let t = space + bases_text(bases) + version_part(version) + fs_part(fs);
    let rest = bases_text(bases) + version_part(version) + fs_part(fs);
    assert(t =~= space + rest);
    assert(p + t.len() == s.len());
    assert forall|j: int| 0 <= j < t.len() implies s[p + j] == #[trigger] t[j] by {
        assert(s[p + j] == s.subrange(p, s.len() as int)[j]);
    }
    lemma_tail_no_dotdot(space, bases, version, fs);
    lemma_after_space_shape(bases, version, fs);
    let e = p + space.len();
    assert(s[p] == t[0]);
    assert(t[0] == space[0]);
    if e < s.len() {
        assert(s[e] == t[space.len() as int]);
        assert(t[space.len() as int] == rest[0]);
    }
    assert(s.subrange(p, e) =~= space) by {
        assert forall|j: int| 0 <= j < space.len() implies s.subrange(p, e)[j] == space[j] by {
            assert(s[p + j] == t[j]);
        }
    }
    lemma_run_over(s, p, space, CharClass::Domain);
    assert(!dotdot_from(s, p)) by {
        if dotdot_from(s, p) {
            let k = choose|k: int| p <= k && k + 1 < s.len() && #[trigger] s[k] == '.' && s[k + 1]
                == '.';
            assert(s[k] == t[k - p]);
            assert(s[k + 1] == t[k - p + 1]);
        }
    }
    if starts_at(s, p, ".."@) {
        assert(s.subrange(p, p + 2)[0] == s[p]);
    }
}

/// The route in front of a space reads as that route, and the segments start after it.
proof fn lemma_route_read(s: Seq<char>, route: RouteModel, t: Seq<char>, space: Seq<char>)
    requires
        route_ok(route),
        s == route_part(route) + t,
        space_ok(space),
        space.len() <= t.len(),
        t.subrange(0, space.len() as int) == space,
        space.len() == t.len() || (t[space.len() as int] == ':' && space.len() + 1 < t.len()
            && t[space.len() + 1int] != ':'),
    ensures
        route_prefix(s) == (route, route_part(route).len() as int),
{
    reveal_strlit("[<");
    reveal_strlit(">]");
    reveal_strlit("::");
    reveal_strlit("GLOBAL");
    reveal_strlit("LOCAL");
    let rp = route_part(route);
    let n = rp.len() as int;
    assert forall|j: int| 0 <= j < t.len() implies s[n + j] == #[trigger] t[j] by {}
    assert(t[0] == space[0]);
    match route {
        RouteModel::This => {
            assert(s =~= t);
            assert(!char_at(s, 0, '$'));
            assert(var_at(s, 0) is Miss);
            assert(!char_at(s, 0, '.'));
            if starts_at(s, 0, "[<"@) {
                assert(s.subrange(0, 2)[0] == s[0]);
            }
            assert(s.subrange(0, space.len() as int) =~= space);
            lemma_run_over(s, 0, space, CharClass::Domain);
            assert(other_route_at(s, 0) == Step::Done(
                RouteModel::Domain(s.subrange(0, space.len() as int)),
                space.len() as int,
            ));
            if starts_at(s, space.len() as int, "::"@) {
                assert(s.subrange(space.len() as int, space.len() + 2int)[1] == s[space.len() + 1int]);
            }
        },
        RouteModel::Global => {
            assert(rp =~= "GLOBAL"@ + "::"@);
            assert(s.subrange(0, 6) =~= "GLOBAL"@);
            assert(s.subrange(6, 8) =~= "::"@);
            if starts_at(s, 0, "[<"@) {
                assert(s.subrange(0, 2)[0] == s[0]);
            }
            assert(run_end(s, 0, CharClass::Domain) == 0);
        },
        RouteModel::Local => {
            assert(rp =~= "LOCAL"@ + "::"@);
            assert(s.subrange(0, 5) =~= "LOCAL"@);
            assert(s.subrange(5, 7) =~= "::"@);
            if starts_at(s, 0, "[<"@) {
                assert(s.subrange(0, 2)[0] == s[0]);
            }
            if starts_at(s, 0, "GLOBAL"@) {
                assert(s.subrange(0, 6)[0] == s[0]);
            }
            assert(run_end(s, 0, CharClass::Domain) == 0);
        },
        RouteModel::Domain(d) => {
            let l = d.len() as int;
            assert(rp =~= d + "::"@);
            assert(s.subrange(0, l) =~= d);
            assert(s.subrange(l, l + 2) =~= "::"@);
            assert(s[0] == d[0]);
            assert(s[l] == ':');
            if starts_at(s, 0, "[<"@) {
                assert(s.subrange(0, 2)[0] == s[0]);
            }
            lemma_run_over(s, 0, d, CharClass::Domain);
        },
        RouteModel::Tag(g) => {
            let l = g.len() as int;
            assert(rp =~= seq!['['] + g + seq![']'] + "::"@);
            assert(s[0] == '[');
            assert(s.subrange(1, 1 + l) =~= g);
            assert(s[1 + l] == ']');
            assert(s.subrange(l + 2, l + 4) =~= "::"@);
            assert(s[1] == g[0]);
            if starts_at(s, 0, "[<"@) {
                assert(s.subrange(0, 2)[1] == s[1]);
            }
            lemma_run_over(s, 1, g, CharClass::Skewer);
        },
        _ => {},
    }
}

/// The text of a point built from parts reads its route and then its space.
proof fn lemma_read_front(
    s: Seq<char>,
    route: RouteModel,
    space: Seq<char>,
    bases: Seq<Seq<char>>,
    version: Option<VersionModel>,
    fs: Option<Option<Seq<char>>>,
)
    requires
        s == route_part(route) + space + bases_text(bases) + version_part(version) + fs_part(fs),
        route_ok(route),
        space_ok(space),
        forall|i: int| 0 <= i < bases.len() ==> base_ok(#[trigger] bases[i]),
        version matches Some(v) ==> version_ok(v),
        fs matches Some(Some(f)) ==> file_ok(f),
    ensures
        route_prefix(s) == (route, route_part(route).len() as int),
        !starts_at(s, route_part(route).len() as int, "ROOT"@),
        space_seg_at(s, route_part(route).len() as int) == Step::Done(
            SegModel::Space(space),
            route_part(route).len() + space.len() as int,
        ),
        s.subrange(route_part(route).len() + space.len() as int, s.len() as int) == bases_text(
            bases,
        ) + version_part(version) + fs_part(fs),
{
    reveal_strlit("ROOT");
    let rp = route_part(route);
    let bt = bases_text(bases);
    let vp = version_part(version);
    let fp = fs_part(fs);
    let t = space + bt + vp + fp;
    assert(s =~= rp + t);
    let p0 = rp.len() as int;
    assert forall|j: int| 0 <= j < t.len() implies s[p0 + j] == #[trigger] t[j] by {}
    lemma_after_space_shape(bases, version, fs);
    let rest = bt + vp + fp;
    assert(t =~= space + rest);
    assert(t.subrange(0, space.len() as int) =~= space);
    if rest.len() > 0 {
        assert(t[space.len() as int] == rest[0]);
        assert(t[space.len() + 1int] == rest[1]);
    }
    lemma_route_read(s, route, t, space);
    assert(s.subrange(p0, s.len() as int) =~= t);
    lemma_space_read(s, p0, space, bases, version, fs);
    assert(s[p0] == space[0]);
    if starts_at(s, p0, "ROOT"@) {
        assert(s.subrange(p0, p0 + 4)[0] == s[p0]);
    }
    assert(s.subrange(p0 + space.len(), s.len() as int) =~= rest);
}

/// The text of a point built from parts reads its bases, its version part and its filesystem
/// part after the space.
proof fn lemma_read_back(
    s: Seq<char>,
    p1: int,
    bases: Seq<Seq<char>>,
    version: Option<VersionModel>,
    fs: Option<Option<Seq<char>>>,
)
    requires
        0 <= p1,
        s.len() == p1 + bases_text(bases).len() + version_part(version).len() + fs_part(fs).len(),
        s.subrange(p1, s.len() as int) == bases_text(bases) + version_part(version) + fs_part(fs),
        forall|i: int| 0 <= i < bases.len() ==> base_ok(#[trigger] bases[i]),
        version matches Some(v) ==> version_ok(v),
        fs matches Some(Some(f)) ==> file_ok(f),
    ensures
        ({
            let p2 = p1 + bases_text(bases).len();
            let p3 = p2 + version_part(version).len();
            &&& bases_from(s, p1) == Some((base_segs(bases), p2))
            &&& version is None ==> version_item_at(s, p2) is Miss
            &&& version matches Some(v) ==> version_item_at(s, p2) == Step::Done(
                SegModel::Version(v),
                p3,
            )
            &&& fs is None ==> fs_at(s, p3) is Miss
            &&& fs is Some ==> fs_at(s, p3) == Step::Done(fs_segs(fs), s.len() as int)
        }),
{
    let bt = bases_text(bases);
    let vp = version_part(version);
    let fp = fs_part(fs);
    let t = bt + vp + fp;
    let p2 = p1 + bt.len();
    let p3 = p2 + vp.len();
    assert forall|j: int| 0 <= j < t.len() implies s[p1 + j] == #[trigger] t[j] by {
        assert(s[p1 + j] == s.subrange(p1, s.len() as int)[j]);
    }
    assert(s.subrange(p1, p2) =~= bt) by {
        assert forall|j: int| 0 <= j < bt.len() implies s.subrange(p1, p2)[j] == bt[j] by {
            assert(s[p1 + j] == t[j]);
        }
    }
    lemma_after_bases_shape(version, fs);
    let after = vp + fp;
    if after.len() > 0 {
        assert(s[p2] == t[p2 - p1]);
        assert(t[p2 - p1] == after[0]);
        assert(s[p2 + 1] == t[p2 - p1 + 1]);
        assert(t[p2 - p1 + 1] == after[1]);
    }
    assert(after_bases(s, p2));
    lemma_bases_read(s, p1, bases);
    assert(s.subrange(p2, s.len() as int) =~= vp + fp) by {
        assert forall|j: int| 0 <= j < after.len() implies s.subrange(p2, s.len() as int)[j]
            == after[j] by {
            assert(s[p2 + j] == t[p2 - p1 + j]);
        }
    }
    lemma_version_read(s, p2, version, fs);
    assert(s.subrange(p3, s.len() as int) =~= fp) by {
        assert forall|j: int| 0 <= j < fp.len() implies s.subrange(p3, s.len() as int)[j]
            == fp[j] by {
            assert(s[p3 + j] == t[p3 - p1 + j]);
        }
    }
    lemma_fs_read(s, p3, fs);
}

/// A point made of a route, a space, base segments, an optional version and an optional
/// filesystem part with an optional file reads back from its own text as the same point, where
/// its route and names keep to their grammar.
pub proof fn law_point_reads_back(
    route: RouteModel,
    space: Seq<char>,
    bases: Seq<Seq<char>>,
    version: Option<VersionModel>,
    fs: Option<Option<Seq<char>>>,
)
    requires
        route_ok(route),
        space_ok(space),
        forall|i: int| 0 <= i < bases.len() ==> base_ok(#[trigger] bases[i]),
        version matches Some(v) ==> version_ok(v),
        fs matches Some(Some(f)) ==> file_ok(f),
    ensures
        point_of(point_string(mesh_point(route, space, bases, version, fs))) == Some(
            mesh_point(route, space, bases, version, fs),
        ),
{
    let m = mesh_point(route, space, bases, version, fs);
    lemma_mesh_point_text(route, space, bases, version, fs);
    let s = point_string(m);
    let rp = route_part(route);
    let bt = bases_text(bases);
    let vp = version_part(version);
    let fp = fs_part(fs);
    let p1 = rp.len() + space.len() as int;
    lemma_read_front(s, route, space, bases, version, fs);
    lemma_read_back(s, p1, bases, version, fs);
    lemma_mesh_concrete(route, space, bases, version, fs);
    reveal(non_root_point_at);
    reveal(point_var_at);
    assert(non_root_point_at(s) == Some((m, s.len() as int)));
    assert(point_var_at(s) == Some((m, s.len() as int)));
}

/// Appending a base name to a point of a space and base segments gives the point with that
/// segment added, and its parent is the point appended to; where the names keep to their
/// grammar.
pub proof fn law_push_base_then_parent(
    route: RouteModel,
    space: Seq<char>,
    bases: Seq<Seq<char>>,
    b: Seq<char>,
)
    requires
        route_ok(route),
        space_ok(space),
        forall|i: int| 0 <= i < bases.len() ==> base_ok(#[trigger] bases[i]),
        base_ok(b),
    ensures
        pushed(mesh_point(route, space, bases, None, None), b) == Some(
            mesh_point(route, space, bases.push(b), None, None),
        ),
        mesh_point(route, space, bases.push(b), None, None).route == mesh_point(
            route,
            space,
            bases,
            None,
            None,
        ).route,
        mesh_point(route, space, bases.push(b), None, None).segments.drop_last() == mesh_point(
            route,
            space,
            bases,
            None,
            None,
        ).segments,
{
    let p = mesh_point(route, space, bases, None, None);
    let more = bases.push(b);
    let q = mesh_point(route, space, more, None, None);
    assert(more.drop_last() =~= bases);
    assert(base_segs(more) =~= base_segs(bases).push(SegModel::Base(b)));
    assert(q.segments =~= p.segments.push(SegModel::Base(b)));
    lemma_mesh_point_text(route, space, bases, None, None);
    lemma_mesh_point_text(route, space, more, None, None);
    assert forall|i: int| 0 <= i < more.len() implies base_ok(#[trigger] more[i]) by {
        if i < bases.len() {
            assert(more[i] == bases[i]);
        }
    }
    law_point_reads_back(route, space, more, None, None);
    let n = p.segments.len();
    assert(p.segments.last() is Space || p.segments.last() is Base) by {
        if bases.len() > 0 {
            assert(p.segments[n - 1] == SegModel::Base(bases[bases.len() - 1]));
        }
    }
    assert(point_string(q) =~= point_string(p) + seq![':'] + b);
    assert(push_text(p, b) == Some(point_string(q)));
    reveal(pushed);
}

/// Appending a file name to a point that ends in the filesystem root gives the point with that
/// file, and its parent is the point appended to; where the names keep to their grammar.
pub proof fn law_push_file_then_parent(
    route: RouteModel,
    space: Seq<char>,
    bases: Seq<Seq<char>>,
    version: Option<VersionModel>,
    f: Seq<char>,
)
    requires
        route_ok(route),
        space_ok(space),
        forall|i: int| 0 <= i < bases.len() ==> base_ok(#[trigger] bases[i]),
        version matches Some(v) ==> version_ok(v),
        file_ok(f),
    ensures
        pushed(mesh_point(route, space, bases, version, Some(None)), f) == Some(
            mesh_point(route, space, bases, version, Some(Some(f))),
        ),
        mesh_point(route, space, bases, version, Some(Some(f))).segments.drop_last()
            == mesh_point(route, space, bases, version, Some(None)).segments,
{
    let p = mesh_point(route, space, bases, version, Some(None));
    let q = mesh_point(route, space, bases, version, Some(Some(f)));
    assert(q.segments =~= p.segments.push(SegModel::File(f)));
    lemma_mesh_point_text(route, space, bases, version, Some(None));
    lemma_mesh_point_text(route, space, bases, version, Some(Some(f)));
    law_point_reads_back(route, space, bases, version, Some(Some(f)));
    assert(p.segments.last() is FilesystemRootDir);
    assert(point_string(q) =~= point_string(p) + f);
    assert(push_text(p, f) == Some(point_string(q)));
    reveal(pushed);
}

/// Appending a version to a point of a space and base segments gives the point with that
/// version, where the names keep to their grammar.
proof fn lemma_push_version(space: Seq<char>, bases: Seq<Seq<char>>, v: VersionModel)
    requires
        space_ok(space),
        forall|i: int| 0 <= i < bases.len() ==> base_ok(#[trigger] bases[i]),
        version_ok(v),
    ensures
        pushed(mesh_point(RouteModel::This, space, bases, None, None), version_text(v)) == Some(
            mesh_point(RouteModel::This, space, bases, Some(v), None),
        ),
{
    let p = mesh_point(RouteModel::This, space, bases, None, None);
    let q = mesh_point(RouteModel::This, space, bases, Some(v), None);
    lemma_mesh_point_text(RouteModel::This, space, bases, None, None);
    lemma_mesh_point_text(RouteModel::This, space, bases, Some(v), None);
    law_point_reads_back(RouteModel::This, space, bases, Some(v), None);
    let n = p.segments.len();
    assert(p.segments.last() is Space || p.segments.last() is Base) by {
        if bases.len() > 0 {
            assert(p.segments[n - 1] == SegModel::Base(bases[bases.len() - 1]));
        }
    }
    assert(point_string(q) =~= point_string(p) + seq![':'] + version_text(v));
    reveal(pushed);
}

/// Resolving the first segments of a local point of a space and base segments.
proof fn lemma_ctx_fold_bases(
    space: Seq<char>,
    bases: Seq<Seq<char>>,
    version: Option<VersionModel>,
    work: PointModel,
    j: int,
)
    requires
        space_ok(space),
        forall|i: int| 0 <= i < bases.len() ==> base_ok(#[trigger] bases[i]),
        0 <= j <= bases.len(),
    ensures
        ctx_fold(mesh_point(RouteModel::This, space, bases, version, None).segments, 1 + j, work)
            == Some(mesh_point(RouteModel::This, space, bases.take(j), None, None)),
    decreases j,
{
    let segs = mesh_point(RouteModel::This, space, bases, version, None).segments;
    if j == 0 {
        let m = mesh_point(RouteModel::This, space, bases.take(0), None, None);
        assert(bases.take(0) =~= Seq::<Seq<char>>::empty());
        lemma_mesh_point_text(RouteModel::This, space, bases.take(0), None, None);
        law_point_reads_back(RouteModel::This, space, bases.take(0), None, None);
        assert(point_string(m) =~= space);
        assert(segs[0] == SegModel::Space(space));
        assert(ctx_fold(segs, 0, work) == Some(root_model()));
        reveal(pushed);
        assert(ctx_step(root_model(), segs[0], 0, work) == Some(m));
    } else {
        lemma_ctx_fold_bases(space, bases, version, work, j - 1);
        let prev = bases.take(j - 1);
        assert forall|i: int| 0 <= i < prev.len() implies base_ok(#[trigger] prev[i]) by {
            assert(prev[i] == bases[i]);
        }
        law_push_base_then_parent(RouteModel::This, space, prev, bases[j - 1]);
        assert(prev.push(bases[j - 1]) =~= bases.take(j));
        assert(segs[j] == SegModel::Base(bases[j - 1]));
    }
}

/// A local point of a space, base segments and an optional version holds no reference to the
/// working point, and resolves to itself against any working point; where its names keep to
/// their grammar.
pub proof fn law_concrete_point_resolves_to_itself(
    space: Seq<char>,
    bases: Seq<Seq<char>>,
    version: Option<VersionModel>,
    work: PointModel,
)
    requires
        space_ok(space),
        forall|i: int| 0 <= i < bases.len() ==> base_ok(#[trigger] bases[i]),
        version matches Some(v) ==> version_ok(v),
    ensures
        ctx_resolved(mesh_point(RouteModel::This, space, bases, version, None), work) == Some(
            mesh_point(RouteModel::This, space, bases, version, None),
        ),
{
    let m = mesh_point(RouteModel::This, space, bases, version, None);
    let segs = m.segments;
    let nb = bases.len() as int;
    lemma_ctx_fold_bases(space, bases, version, work, nb);
    assert(bases.take(nb) =~= bases);
    match version {
        None => {
            assert(segs.len() == 1 + nb);
        },
        Some(v) => {
            assert(segs.len() == 2 + nb);
            assert(segs[1 + nb] == SegModel::Version(v));
            lemma_push_version(space, bases, v);
        },
    }
}

/// A local point whose version is followed by the filesystem root does not resolve against a
/// working point: resolution appends the root's text `:/` to the point resolved so far, and
/// after a version only `/` may be appended; whatever directories and file follow.
pub proof fn law_filesystem_after_version_does_not_resolve(
    space: Seq<char>,
    bases: Seq<Seq<char>>,
    v: VersionModel,
    rest: Seq<SegModel>,
    work: PointModel,
)
    requires
        space_ok(space),
        forall|i: int| 0 <= i < bases.len() ==> base_ok(#[trigger] bases[i]),
        version_ok(v),
    ensures
        ctx_resolved(
            PointModel {
                route: RouteModel::This,
                segments: mesh_point(RouteModel::This, space, bases, Some(v), None).segments
                    + seq![SegModel::FilesystemRootDir] + rest,
            },
            work,
        ) is None,
{
    let head = mesh_point(RouteModel::This, space, bases, Some(v), None).segments;
    let segs = head + seq![SegModel::FilesystemRootDir] + rest;
    let nb = bases.len() as int;
    let k = nb + 2;
    assert(head.len() == k);
    lemma_ctx_fold_bases(space, bases, Some(v), work, nb);
    assert(bases.take(nb) =~= bases);
    assert forall|j: int| 0 <= j <= k implies ctx_fold(segs, j, work) == ctx_fold(head, j, work) by {
        lemma_ctx_fold_prefix(head, segs, j, work);
    }
    lemma_push_version(space, bases, v);
    assert(head[k - 1] == SegModel::Version(v));
    let q = mesh_point(RouteModel::This, space, bases, Some(v), None);
    assert(ctx_fold(segs, k, work) == Some(q));
    assert(q.segments.last() == SegModel::Version(v));
    assert(segs[k] == SegModel::FilesystemRootDir);
    assert(seq![':', '/'] != seq!['/']) by {
        assert(seq![':', '/'].len() != seq!['/'].len());
    }
    reveal(pushed);
    assert(ctx_fold(segs, k + 1, work) is None);
    lemma_ctx_fold_none(segs, k + 1, segs.len() as int, work);
}

/// Resolving the first segments depends on those segments only.
proof fn lemma_ctx_fold_prefix(a: Seq<SegModel>, b: Seq<SegModel>, j: int, work: PointModel)
    requires
        0 <= j <= a.len(),
        j <= b.len(),
        forall|i: int| 0 <= i < j ==> a[i] == b[i],
    ensures
        ctx_fold(b, j, work) == ctx_fold(a, j, work),
    decreases j,
{
    if j > 0 {
        lemma_ctx_fold_prefix(a, b, j - 1, work);
        assert(a[j - 1] == b[j - 1]);
    }
}

/// The text of the space and base segments of a point, with no variable among them.
proof fn lemma_var_fold_bases(
    space: Seq<char>,
    bases: Seq<Seq<char>>,
    rest: Seq<SegModel>,
    vars: spec_fn(Seq<char>) -> Option<Seq<char>>,
    j: int,
)
    requires
        0 <= j <= bases.len(),
    ensures
        var_segs_fold(seq![SegModel::Space(space)] + base_segs(bases) + rest, 1 + j, vars)
            == Some((space + bases_text(bases.take(j)), false)),
    decreases j,
{
    let segs = seq![SegModel::Space(space)] + base_segs(bases) + rest;
    if j == 0 {
        assert(bases.take(0) =~= Seq::<Seq<char>>::empty());
        assert(segs[0] == SegModel::Space(space));
        assert(var_segs_fold(segs, 0, vars) == Some((Seq::<char>::empty(), false)));
        assert(Seq::<char>::empty() + Seq::<char>::empty() + space =~= space + bases_text(
            bases.take(0),
        ));
    } else {
        lemma_var_fold_bases(space, bases, rest, vars, j - 1);
        assert(segs[j] == SegModel::Base(bases[j - 1]));
        let t = bases.take(j);
        assert(t.drop_last() =~= bases.take(j - 1));
        assert(t.last() == bases[j - 1]);
        assert(space + bases_text(bases.take(j - 1)) + seq![':'] + bases[j - 1] =~= space
            + bases_text(t));
    }
}

/// A local point of a space, at least one base segment and then a variable resolves, where the
/// variable holds a base name, to the point with that name in the variable's place.
pub proof fn law_variable_resolves_to_its_value(
    space: Seq<char>,
    bases: Seq<Seq<char>>,
    var: VarModel,
    vars: spec_fn(Seq<char>) -> Option<Seq<char>>,
)
    requires
        space_ok(space),
        bases.len() > 0,
        forall|i: int| 0 <= i < bases.len() ==> base_ok(#[trigger] bases[i]),
        vars(var.name) matches Some(b) && base_ok(b),
    ensures
        var_resolved(
            PointModel {
                route: RouteModel::This,
                segments: seq![SegModel::Space(space)] + base_segs(bases) + seq![
                    SegModel::Var(var),
                ],
            },
            vars,
        ) == Some(mesh_point(RouteModel::This, space, bases.push(vars(var.name)->0), None, None)),
{
    let b = vars(var.name)->0;
    let rest = seq![SegModel::Var(var)];
    let segs = seq![SegModel::Space(space)] + base_segs(bases) + rest;
    let p = PointModel { route: RouteModel::This, segments: segs };
    let nb = bases.len() as int;
    let more = bases.push(b);
    lemma_var_fold_bases(space, bases, rest, vars, nb);
    assert(bases.take(nb) =~= bases);
    assert(segs.len() == nb + 2);
    assert(segs[nb + 1] == SegModel::Var(var));
    assert(more.drop_last() =~= bases);
    let text = space + bases_text(more);
    assert(space + bases_text(bases) + seq![':'] + b =~= text);
    assert(var_segs_fold(segs, nb + 2, vars) == Some((text, false)));
    assert(var_resolved_text(p, vars) == Some(text)) by {
        assert(Seq::<char>::empty() + text + Seq::<char>::empty() =~= text);
    }
    lemma_mesh_point_text(RouteModel::This, space, more, None, None);
    assert(point_string(mesh_point(RouteModel::This, space, more, None, None)) =~= text);
    assert forall|i: int| 0 <= i < more.len() implies base_ok(#[trigger] more[i]) by {
        if i < nb {
            assert(more[i] == bases[i]);
        }
    }
    law_point_reads_back(RouteModel::This, space, more, None, None);
}

/// A point built from parts holds no variable and no reference to the working point.
proof fn lemma_mesh_concrete(
    route: RouteModel,
    space: Seq<char>,
    bases: Seq<Seq<char>>,
    version: Option<VersionModel>,
    fs: Option<Option<Seq<char>>>,
)
    requires
        route_ok(route),
    ensures
        point_concrete(mesh_point(route, space, bases, version, fs)),
        mesh_point(route, space, bases, version, fs).segments == seq![SegModel::Space(space)]
            + base_segs(bases) + version_segs(version) + fs_segs(fs),
{
    let m = mesh_point(route, space, bases, version, fs);
    assert forall|i: int| 0 <= i < m.segments.len() implies seg_concrete(#[trigger] m.segments[i]) by {
        let nb = 1 + bases.len();
        if 0 < i < nb {
            assert(m.segments[i] == SegModel::Base(bases[i - 1]));
        }
    }
}

/// The root of the local route reads back from its text, `ROOT`.
pub proof fn law_root_reads_back()
    ensures
        point_of(point_string(PointModel { route: RouteModel::This, segments: Seq::empty() }))
            == Some(PointModel { route: RouteModel::This, segments: Seq::empty() }),
{
    reveal_strlit("ROOT");
    reveal_strlit("[<");
    reveal_strlit("GLOBAL");
    reveal_strlit("LOCAL");
    reveal_strlit("::");
    let s = point_string(PointModel { route: RouteModel::This, segments: Seq::empty() });
    assert(s =~= "ROOT"@);
    assert(run_end(s, 0, CharClass::Domain) == 0);
    if starts_at(s, 0, "[<"@) {
        assert(s.subrange(0, 2)[0] == s[0]);
    }
    if starts_at(s, 0, "GLOBAL"@) {
        assert(s.subrange(0, 6)[0] == s[0]);
    }
    if starts_at(s, 0, "LOCAL"@) {
        assert(s.subrange(0, 5)[0] == s[0]);
    }
    assert(other_route_at(s, 0) is Miss);
    if starts_at(s, 0, "::"@) {
        assert(s.subrange(0, 2)[0] == s[0]);
    }
    assert(route_prefix(s) == (RouteModel::This, 0int));
    assert(s.subrange(0, 4) =~= "ROOT"@);
    reveal(point_var_at);
}

} // verus!
