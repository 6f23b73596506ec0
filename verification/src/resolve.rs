//! Operations on concrete points (appending, normalizing, bundles, filesystem parts) and the
//! resolution of variables and context references against a scope.
use vstd::prelude::*;
use crate::env::{Env, ResolverErr};
use crate::error::{MsgErr, ParseErrs};
use crate::parse::{consume_point, consume_point_ctx, point_of};
use crate::point::{
    kind_is_filesystem_seg, kind_is_mesh_seg, kind_is_normalized, kind_name, point_string,
    seg_kind, seg_text, version_text, view_segs, Point, PointCtx, PointDef, PointModel, PointSeg,
    PointSegCtx, PointSegKind, PointSegQuery, PointSegVar, PointVar, RouteModel, RouteSeg,
    RouteSegQuery, RouteSegVar, SegModel, Version,
};
use crate::case::{camel_ok, domain_ok, skewer_ok, CamelCase, Domain, SkewerCase};
use crate::parse::semver_parse;
use crate::point::{Trace, VersionModel};
use crate::text::{push_char, push_str};

verus! {

/// The root point of the local route.
pub open spec fn root_model() -> PointModel {
    PointModel { route: RouteModel::This, segments: Seq::empty() }
}

/// The text that appending `seg` to `p` reads back from, or `None` where appending is refused
/// (after a file, or anything but `/` after a version).
pub open spec fn push_text(p: PointModel, seg: Seq<char>) -> Option<Seq<char>> {
    if p.segments.len() == 0 {
        Some(seg)
    } else {
        match p.segments.last() {
            SegModel::Root => Some(seg),
            SegModel::Space(_) => Some(point_string(p) + seq![':'] + seg),
            SegModel::Base(_) => Some(point_string(p) + seq![':'] + seg),
            SegModel::FilesystemRootDir => Some(point_string(p) + seg),
            SegModel::Dir(_) => Some(point_string(p) + seg),
            SegModel::Version(_) => if seg == seq!['/'] {
                Some(point_string(p) + seq![':', '/'])
            } else {
                None
            },
            _ => None,
        }
    }
}

/// The point that appending `seg` to `p` gives.
#[verifier::opaque]
pub open spec fn pushed(p: PointModel, seg: Seq<char>) -> Option<PointModel> {
    match push_text(p, seg) {
        Some(t) => point_of(t),
        None => None,
    }
}

/// A filesystem root appears among the segments.
pub open spec fn has_fs(p: PointModel) -> bool {
    exists|i: int| 0 <= i < p.segments.len() && #[trigger] p.segments[i] is FilesystemRootDir
}

/// A version appears among the segments.
pub open spec fn has_version(p: PointModel) -> bool {
    exists|i: int| 0 <= i < p.segments.len() && #[trigger] p.segments[i] is Version
}

/// Every segment is normalized.
pub open spec fn all_normalized(p: PointModel) -> bool {
    forall|i: int| 0 <= i < p.segments.len() ==> kind_is_normalized(seg_kind(#[trigger] p.segments[i]))
}

/// The number of leading segments that make up the bundle: up to the last version.
pub open spec fn bundle_len(segs: Seq<SegModel>) -> Option<int>
    decreases segs.len(),
{
    if segs.len() == 0 {
        None
    } else if segs.last() is Version {
        Some(segs.len() as int)
    } else {
        bundle_len(segs.drop_last())
    }
}

pub proof fn lemma_bundle_len(segs: Seq<SegModel>)
    ensures
        bundle_len(segs) matches Some(n) ==> 0 < n <= segs.len(),
    decreases segs.len(),
{
    if segs.len() > 0 && !(segs.last() is Version) {
        lemma_bundle_len(segs.drop_last());
    }
}

/// What a segment adds to a filesystem path.
pub open spec fn path_piece(s: SegModel) -> Seq<char> {
    match s {
        SegModel::FilesystemRootDir => seq!['/'],
        SegModel::Dir(d) => d,
        SegModel::File(f) => f,
        _ => Seq::empty(),
    }
}

/// The filesystem path of the first `n` segments.
pub open spec fn path_text(segs: Seq<SegModel>, n: int) -> Seq<char>
    decreases n,
{
    if n <= 0 {
        Seq::empty()
    } else {
        path_text(segs, n - 1) + path_piece(segs[n - 1])
    }
}

/// The first position at or after `i` whose segment is of kind `k`.
pub open spec fn first_of_kind(segs: Seq<SegModel>, k: PointSegKind, i: int) -> Option<int>
    decreases segs.len() - i,
{
    if i < 0 || i >= segs.len() {
        None
    } else if seg_kind(segs[i]) == k {
        Some(i)
    } else {
        first_of_kind(segs, k, i + 1)
    }
}

/// The message for a segment kind that a point lacks.
pub open spec fn kind_missing_message(k: PointSegKind, p: PointModel) -> Seq<char> {
    "Point segment kind: "@ + kind_name(k) + " not found in point: "@ + point_string(p)
}

/// Compares two versions.
pub fn version_eq(a: &Version, b: &Version) -> (r: bool)
    ensures
        r == (a@ == b@),
{
    a.major == b.major && a.minor == b.minor && a.patch == b.patch && a.pre == b.pre && a.build
        == b.build
}

/// Compares two concrete segments.
pub fn seg_eq(a: &PointSeg, b: &PointSeg) -> (r: bool)
    ensures
        r == (a@ == b@),
{
    match (a, b) {
        (PointSeg::Root, PointSeg::Root) => true,
        (PointSeg::Space(x), PointSeg::Space(y)) => *x == *y,
        (PointSeg::Base(x), PointSeg::Base(y)) => *x == *y,
        (PointSeg::FilesystemRootDir, PointSeg::FilesystemRootDir) => true,
        (PointSeg::Dir(x), PointSeg::Dir(y)) => *x == *y,
        (PointSeg::File(x), PointSeg::File(y)) => *x == *y,
        (PointSeg::Version(x), PointSeg::Version(y)) => version_eq(x, y),
        _ => false,
    }
}

/// Compares two concrete routes.
pub fn route_eq(a: &RouteSeg, b: &RouteSeg) -> (r: bool)
    ensures
        r == (a@ == b@),
{
    match (a, b) {
        (RouteSeg::This, RouteSeg::This) => true,
        (RouteSeg::Local, RouteSeg::Local) => true,
        (RouteSeg::Remote, RouteSeg::Remote) => true,
        (RouteSeg::Global, RouteSeg::Global) => true,
        (RouteSeg::Domain(x), RouteSeg::Domain(y)) => *x == *y,
        (RouteSeg::Tag(x), RouteSeg::Tag(y)) => *x == *y,
        (RouteSeg::Star(x), RouteSeg::Star(y)) => *x == *y,
        _ => false,
    }
}

/// A concrete point never holds variables or context references, so it is normalized.
pub proof fn lemma_point_normalized(p: &Point)
    ensures
        all_normalized(p@),
{
    assert forall|i: int| 0 <= i < p@.segments.len() implies kind_is_normalized(
        seg_kind(#[trigger] p@.segments[i]),
    ) by {
        assert(p@.segments[i] == p.segments@[i]@);
    }
}

fn space_point(route: RouteSeg, space: &str) -> (r: Point)
    ensures
        r@ == (PointModel { route: route@, segments: seq![SegModel::Space(space@)] }),
{
    let mut segments: Vec<PointSeg> = Vec::new();
    segments.push(PointSeg::Space(space.to_string()));
    let r = PointDef { route, segments };
    assert(r@.segments =~= seq![SegModel::Space(space@)]);
    r
}

impl Point {
    /// Reads a whole text as a concrete point.
    pub fn from_str(s: &str) -> (r: Result<Point, MsgErr>)
        ensures
            match (r, point_of(s@)) {
                (Ok(p), Some(m)) => p@ == m,
                (Err(_), None) => true,
                _ => false,
            },
    {
        consume_point(s)
    }

    /// The root of the local route.
    pub fn root() -> (r: Self)
        ensures
            r@ == root_model(),
    {
        let segments: Vec<PointSeg> = Vec::new();
        let r = PointDef { route: RouteSeg::This, segments };
        assert(r@.segments =~= Seq::<SegModel>::empty());
        r
    }

    /// The root of a route.
    pub fn root_with_route(route: RouteSeg) -> (r: Self)
        ensures
            r.route == route,
            r@ == (PointModel { route: route@, segments: Seq::empty() }),
    {
        let segments: Vec<PointSeg> = Vec::new();
        let r = PointDef { route, segments };
        assert(r@.segments =~= Seq::<SegModel>::empty());
        r
    }

    pub fn is_local_root(&self) -> (b: bool)
        ensures
            b == (self@.segments.len() == 0 && self@.route is This),
    {
        self.segments.len() == 0 && self.route.is_local()
    }

    pub fn is_global(&self) -> (b: bool)
        ensures
            b == (self@.route is Global),
    {
        self.route.is_global()
    }

    /// `GLOBAL::central`.
    pub fn central() -> (r: Self)
        ensures
            r@ == (PointModel {
                route: RouteModel::Global,
                segments: seq![SegModel::Space("central"@)],
            }),
    {
        space_point(RouteSeg::Global, "central")
    }

    /// `GLOBAL::executor`.
    pub fn global_executor() -> (r: Self)
        ensures
            r@ == (PointModel {
                route: RouteModel::Global,
                segments: seq![SegModel::Space("executor"@)],
            }),
    {
        space_point(RouteSeg::Global, "executor")
    }

    /// `LOCAL::portal`.
    pub fn local_portal() -> (r: Self)
        ensures
            r@ == (PointModel {
                route: RouteModel::Local,
                segments: seq![SegModel::Space("portal"@)],
            }),
    {
        space_point(RouteSeg::Local, "portal")
    }

    /// `LOCAL::hypergate`.
    pub fn local_hypergate() -> (r: Self)
        ensures
            r@ == (PointModel {
                route: RouteModel::Local,
                segments: seq![SegModel::Space("hypergate"@)],
            }),
    {
        space_point(RouteSeg::Local, "hypergate")
    }

    /// `LOCAL::endpoint`.
    pub fn local_endpoint() -> (r: Self)
        ensures
            r@ == (PointModel {
                route: RouteModel::Local,
                segments: seq![SegModel::Space("endpoint"@)],
            }),
    {
        space_point(RouteSeg::Local, "endpoint")
    }

    /// `REMOTE::endpoint`.
    pub fn remote_endpoint() -> (r: Self)
        ensures
            r@ == (PointModel {
                route: RouteModel::Remote,
                segments: seq![SegModel::Space("endpoint"@)],
            }),
    {
        space_point(RouteSeg::Remote, "endpoint")
    }

    pub fn is_normalized(&self) -> (b: bool)
        ensures
            b == all_normalized(self@),
    {
        let mut i: usize = 0;
        while i < self.segments.len()
            invariant
                i <= self.segments@.len(),
                forall|j: int| 0 <= j < i ==> kind_is_normalized(seg_kind(#[trigger] self@.segments[j])),
            decreases self.segments@.len() - i,
        {
            assert(self@.segments[i as int] == self.segments@[i as int]@);
            if !self.segments[i].is_normalized() {
                return false;
            }
            i = i + 1;
        }
        true
    }

    /// The point with `..` segments applied; a concrete point is already normalized and comes
    /// back unchanged.
    pub fn normalize(self) -> (r: Result<Point, MsgErr>)
        ensures
            r matches Ok(q) && q@ == self@,
    {
        proof {
            lemma_point_normalized(&self);
        }
        if self.is_normalized() {
            return Ok(self);
        }
        if self.segments.len() == 0 || !self.segments[0].is_normalized() {
            return Err(
                MsgErr::from_500(
                    "absolute point paths cannot begin with '..' (reference parent segment) because there is no working point segment",
                ),
            );
        }
        let mut segments: Vec<PointSeg> = Vec::new();
        let mut i: usize = 0;
        while i < self.segments.len()
            invariant
                i <= self.segments@.len(),
            decreases self.segments@.len() - i,
        {
            if self.segments[i].is_normalized() {
                segments.push(self.segments[i].clone());
            } else {
                if segments.pop().is_none() {
                    return Err(MsgErr::from_500("'..' too many pop segments directives: out of parents"));
                }
            }
            i = i + 1;
        }
        Ok(PointDef { route: self.route, segments })
    }

    /// Whether `child` lies strictly below this point on the same route.
    pub fn is_parent(&self, child: &Point) -> (r: Result<(), ()>)
        ensures
            r is Ok <==> (self@.route == child@.route && self@.segments.len()
                < child@.segments.len() && forall|i: int|
                0 <= i < self@.segments.len() ==> #[trigger] self@.segments[i]
                    == child@.segments[i]),
    {
        if !route_eq(&self.route, &child.route) {
            return Err(());
        }
        if self.segments.len() >= child.segments.len() {
            return Err(());
        }
        let mut i: usize = 0;
        while i < self.segments.len()
            invariant
                i <= self.segments@.len(),
                self.segments@.len() < child.segments@.len(),
                forall|j: int| 0 <= j < i ==> #[trigger] self@.segments[j] == child@.segments[j],
            decreases self.segments@.len() - i,
        {
            assert(self@.segments[i as int] == self.segments@[i as int]@);
            assert(child@.segments[i as int] == child.segments@[i as int]@);
            if !seg_eq(&self.segments[i], &child.segments[i]) {
                return Err(());
            }
            i = i + 1;
        }
        Ok(())
    }

    /// The point up to and including its last version.
    pub fn to_bundle(self) -> (r: Result<Point, MsgErr>)
        ensures
            match bundle_len(self@.segments) {
                Some(n) => r matches Ok(q) && q@ == (PointModel {
                    route: self@.route,
                    segments: self@.segments.take(n),
                }),
                None => r is Err,
            },
        decreases self.segments@.len(),
    {
        if self.segments.len() == 0 {
            return Err(MsgErr::from_500("Point does not contain a bundle"));
        }
        let n = self.segments.len();
        assert(self@.segments.last() == self.segments@[n - 1]@);
        if let PointSeg::Version(_) = &self.segments[n - 1] {
            assert(self@.segments.take(n as int) =~= self@.segments);
            return Ok(self);
        }
        match self.parent() {
            Some(p) => {
                assert(p@.segments =~= self@.segments.drop_last());
                let r = p.to_bundle();
                proof {
                    lemma_bundle_len(p@.segments);
                    match bundle_len(p@.segments) {
                        Some(k) => {
                            assert(p@.segments.take(k) =~= self@.segments.take(k));
                        },
                        None => {},
                    }
                }
                r
            },
            None => Err(MsgErr::from_500("Point does not contain a bundle")),
        }
    }

    /// Whether the point lies in a bundle.
    pub fn has_bundle(&self) -> (b: bool)
        ensures
            b == (bundle_len(self@.segments) is Some),
    {
        if self.segments.len() == 0 {
            return false;
        }
        let n = self.segments.len();
        assert(self@.segments.last() == self.segments@[n - 1]@);
        if let PointSeg::Version(_) = &self.segments[n - 1] {
            return true;
        }
        match self.parent() {
            Some(p) => {
                assert(p@.segments =~= self@.segments.drop_last());
                p.to_bundle().is_ok()
            },
            None => false,
        }
    }

    /// The text of the point, which names a file safely.
    pub fn to_safe_filename(&self) -> (r: String)
        ensures
            r@ == point_string(self@),
    {
        self.to_string()
    }

    pub fn has_filesystem(&self) -> (b: bool)
        ensures
            b == has_fs(self@),
    {
        let mut i: usize = 0;
        while i < self.segments.len()
            invariant
                i <= self.segments@.len(),
                forall|j: int| 0 <= j < i ==> !(#[trigger] self@.segments[j] is FilesystemRootDir),
            decreases self.segments@.len() - i,
        {
            assert(self@.segments[i as int] == self.segments@[i as int]@);
            if let PointSeg::FilesystemRootDir = &self.segments[i] {
                return true;
            }
            i = i + 1;
        }
        false
    }

    /// Whether a version appears in the point.
    pub fn is_artifact_bundle_part(&self) -> (b: bool)
        ensures
            b == has_version(self@),
    {
        let mut i: usize = 0;
        while i < self.segments.len()
            invariant
                i <= self.segments@.len(),
                forall|j: int| 0 <= j < i ==> !(#[trigger] self@.segments[j] is Version),
            decreases self.segments@.len() - i,
        {
            assert(self@.segments[i as int] == self.segments@[i as int]@);
            if self.segments[i].is_version() {
                return true;
            }
            i = i + 1;
        }
        false
    }

    /// A file inside a bundle.
    pub fn is_artifact(&self) -> (b: bool)
        ensures
            b == (self@.segments.len() > 0 && has_version(self@) && self@.segments.last() is File),
    {
        match self.last_segment() {
            Some(segment) => {
                assert(segment@ == self@.segments.last());
                self.is_artifact_bundle_part() && segment.is_file()
            },
            None => false,
        }
    }

    /// A bundle itself: the point ends with a version.
    pub fn is_artifact_bundle(&self) -> (b: bool)
        ensures
            b == (self@.segments.len() > 0 && self@.segments.last() is Version),
    {
        match self.last_segment() {
            Some(segment) => {
                assert(segment@ == self@.segments.last());
                segment.is_version()
            },
            None => false,
        }
    }

    /// The filesystem path of the point, if it has one.
    pub fn filepath(&self) -> (r: Option<String>)
        ensures
            path_text(self@.segments, self@.segments.len() as int).len() == 0 ==> r is None,
            path_text(self@.segments, self@.segments.len() as int).len() > 0 ==> (r matches Some(
                s,
            ) && s@ == path_text(self@.segments, self@.segments.len() as int)),
    {
        let mut path = String::new();
        let mut i: usize = 0;
        while i < self.segments.len()
            invariant
                i <= self.segments@.len(),
                path@ == path_text(self@.segments, i as int),
            decreases self.segments@.len() - i,
        {
            assert(self@.segments[i as int] == self.segments@[i as int]@);
            match &self.segments[i] {
                PointSeg::FilesystemRootDir => push_char(&mut path, '/'),
                PointSeg::Dir(dir) => push_str(&mut path, dir.as_str()),
                PointSeg::File(file) => push_str(&mut path, file.as_str()),
                _ => {},
            }
            i = i + 1;
            assert(path@ =~= path_text(self@.segments, i as int));
        }
        if path.unicode_len() == 0 {
            None
        } else {
            Some(path)
        }
    }

    /// Whether the point ends in the filesystem.
    pub fn is_filesystem_ref(&self) -> (b: bool)
        ensures
            b == (self@.segments.len() > 0 && kind_is_filesystem_seg(
                seg_kind(self@.segments.last()),
            )),
    {
        match self.last_segment() {
            Some(segment) => {
                assert(segment@ == self@.segments.last());
                segment.is_filesystem_seg()
            },
            None => false,
        }
    }

    /// The point up to and including its first segment of kind `kind`.
    pub fn truncate(self, kind: PointSegKind) -> (r: Result<Point, MsgErr>)
        ensures
            match first_of_kind(self@.segments, kind, 0) {
                Some(i) => r matches Ok(q) && q@ == (PointModel {
                    route: self@.route,
                    segments: self@.segments.take(i + 1),
                }),
                None => r matches Err(e) && e.is_status(
                    404,
                    kind_missing_message(kind, self@),
                ),
            },
    {
        let ghost model = self@;
        let mut segments: Vec<PointSeg> = Vec::new();
        let mut i: usize = 0;
        while i < self.segments.len()
            invariant
                model == self@,
                i <= self.segments@.len(),
                view_segs(segments@) == self@.segments.take(i as int),
                first_of_kind(self@.segments, kind, 0) == first_of_kind(
                    self@.segments,
                    kind,
                    i as int,
                ),
            decreases self.segments@.len() - i,
        {
            assert(self@.segments[i as int] == self.segments@[i as int]@);
            let ghost before = view_segs(segments@);
            segments.push(self.segments[i].clone());
            assert(view_segs(segments@) =~= before.push(self@.segments[i as int]));
            assert(self@.segments.take(i + 1) =~= self@.segments.take(i as int).push(
                self@.segments[i as int],
            ));
            if self.segments[i].kind() == kind {
                return Ok(PointDef { route: self.route, segments });
            }
            i = i + 1;
        }
        let mut message = String::new();
        push_str(&mut message, "Point segment kind: ");
        let k = kind.to_string();
        push_str(&mut message, k.as_str());
        push_str(&mut message, " not found in point: ");
        let t = self.to_string();
        push_str(&mut message, t.as_str());
        proof {
            reveal_strlit("Point segment kind: ");
            reveal_strlit(" not found in point: ");
        }
        assert(message@ =~= kind_missing_message(kind, self@));
        Err(MsgErr::Status { status: 404, message })
    }

    /// Appends a segment given as text: the point is printed with the segment added and read
    /// back.
    pub fn push(&self, segment: &str) -> (r: Result<Point, MsgErr>)
        ensures
            match pushed(self@, segment@) {
                Some(m) => r matches Ok(q) && q@ == m,
                None => r is Err,
            },
    {
        proof {
            reveal(pushed);
        }
        if self.segments.len() == 0 {
            return consume_point(segment);
        }
        let n = self.segments.len();
        assert(self@.segments.last() == self.segments@[n - 1]@);
        let text = match &self.segments[n - 1] {
            PointSeg::Root => segment.to_string(),
            PointSeg::Space(_) | PointSeg::Base(_) => {
                let mut t = self.to_string();
                push_char(&mut t, ':');
                push_str(&mut t, segment);
                t
            },
            PointSeg::FilesystemRootDir | PointSeg::Dir(_) => {
                let mut t = self.to_string();
                push_str(&mut t, segment);
                t
            },
            PointSeg::Version(_) => {
                if !(segment.unicode_len() == 1 && segment.get_char(0) == '/') {
                    proof {
                        if segment@ == seq!['/'] {
                            assert(segment@[0] == '/');
                        }
                    }
                    return Err(
                        MsgErr::from_500("Root filesystem artifact dir required after version"),
                    );
                }
                assert(segment@ =~= seq!['/']);
                let mut t = self.to_string();
                push_char(&mut t, ':');
                push_char(&mut t, '/');
                t
            },
            PointSeg::File(_) => {
                return Err(MsgErr::from_500("cannot append to a file"));
            },
        };
        assert(push_text(self@, segment@) == Some(text@));
        consume_point(text.as_str())
    }

    /// Appends file text to the printed point and reads the result back.
    pub fn push_file(&self, segment: &str) -> (r: Result<Point, MsgErr>)
        ensures
            match point_of(point_string(self@) + segment@) {
                Some(m) => r matches Ok(q) && q@ == m,
                None => r is Err,
            },
    {
        let mut t = self.to_string();
        push_str(&mut t, segment);
        consume_point(t.as_str())
    }

    /// Appends a segment: a mesh segment, or a filesystem segment once the filesystem root is
    /// there.
    pub fn push_segment(&self, segment: PointSeg) -> (r: Result<Point, MsgErr>)
        ensures
            ((has_fs(self@) && kind_is_filesystem_seg(seg_kind(segment@))) || kind_is_mesh_seg(
                seg_kind(segment@),
            )) ==> (r matches Ok(q) && q@ == (PointModel {
                route: self@.route,
                segments: self@.segments.push(segment@),
            })),
            !((has_fs(self@) && kind_is_filesystem_seg(seg_kind(segment@))) || kind_is_mesh_seg(
                seg_kind(segment@),
            )) ==> r is Err,
    {
        if (self.has_filesystem() && segment.is_filesystem_seg()) || segment.kind().is_mesh_seg() {
            let mut point = self.clone();
            let ghost before = point@.segments;
            assert(before == self@.segments);
            point.segments.push(segment);
            assert(point@.segments =~= before.push(segment@));
            Ok(point)
        } else {
            if self.has_filesystem() {
                Err(
                    MsgErr::from_500(
                        "cannot push a Mesh segment onto a point after the FileSystemRoot segment has been pushed",
                    ),
                )
            } else {
                Err(
                    MsgErr::from_500(
                        "cannot push a FileSystem segment onto a point until after the FileSystemRoot segment has been pushed",
                    ),
                )
            }
        }
    }
}


/// What a segment of a point with context references does to the point resolved so far, at
/// position `index`, where `work` is the working point.
pub open spec fn ctx_step(p: PointModel, seg: SegModel, index: int, work: PointModel) -> Option<
    PointModel,
> {
    match seg {
        SegModel::Working(_) => if index > 1 {
            None
        } else {
            Some(work)
        },
        SegModel::Pop(_) => {
            let q = if index <= 1 {
                work
            } else {
                p
            };
            if q.segments.len() == 0 {
                None
            } else {
                Some(PointModel { route: q.route, segments: q.segments.drop_last() })
            }
        },
        SegModel::FilesystemRootDir => pushed(p, seq![':', '/']),
        SegModel::Root => Some(p),
        SegModel::Space(t) => pushed(p, t),
        SegModel::Base(t) => pushed(p, t),
        SegModel::Dir(t) => pushed(p, t),
        SegModel::File(t) => pushed(p, t),
        SegModel::Version(v) => pushed(p, version_text(v)),
        SegModel::Var(_) => None,
    }
}

/// The point resolved from the first `n` segments, starting from the local root.
pub open spec fn ctx_fold(segs: Seq<SegModel>, n: int, work: PointModel) -> Option<PointModel>
    decreases n,
{
    if n <= 0 {
        Some(root_model())
    } else {
        match ctx_fold(segs, n - 1, work) {
            Some(p) => ctx_step(p, segs[n - 1], n - 1, work),
            None => None,
        }
    }
}

/// The concrete point that a point with context references resolves to against the working
/// point `work`; a point with no segments keeps its route.
pub open spec fn ctx_resolved(p: PointModel, work: PointModel) -> Option<PointModel> {
    if p.segments.len() == 0 {
        Some(PointModel { route: p.route, segments: Seq::empty() })
    } else {
        ctx_fold(p.segments, p.segments.len() as int, work)
    }
}

pub proof fn lemma_ctx_fold_none(segs: Seq<SegModel>, i: int, n: int, work: PointModel)
    requires
        0 <= i <= n,
        ctx_fold(segs, i, work) is None,
    ensures
        ctx_fold(segs, n, work) is None,
    decreases n - i,
{
    if i < n {
        lemma_ctx_fold_none(segs, i, n - 1, work);
    }
}

/// The delimiter written before a segment, given whether the filesystem root was passed.
pub open spec fn delim_of(after_fs: bool) -> Seq<char> {
    if after_fs {
        seq!['/']
    } else {
        seq![':']
    }
}

/// The text a route stands for once its variable, if any, is looked up in `vars`.
pub open spec fn route_part(r: RouteModel, vars: spec_fn(Seq<char>) -> Option<Seq<char>>) -> Option<
    Seq<char>,
> {
    match r {
        RouteModel::Var(v) => match vars(v.name) {
            Some(val) => Some(val + seq![':', ':']),
            None => None,
        },
        RouteModel::This => Some(Seq::empty()),
        RouteModel::Domain(d) => Some(d + seq![':', ':']),
        RouteModel::Tag(t) => Some(seq!['['] + t + seq![']', ':', ':']),
        RouteModel::Star(m) => Some(seq!['<'] + m + seq!['>', ':', ':']),
        RouteModel::Global => Some("GLOBAL"@),
        RouteModel::Local => Some("LOCAL"@),
        RouteModel::Remote => Some("REMOTE"@),
    }
}

/// The text of the first `n` segments once their variables are looked up in `vars`, and
/// whether the filesystem root was passed; `None` where a variable has no value.
pub open spec fn var_segs_fold(
    segs: Seq<SegModel>,
    n: int,
    vars: spec_fn(Seq<char>) -> Option<Seq<char>>,
) -> Option<(Seq<char>, bool)>
    decreases n,
{
    if n <= 0 {
        Some((Seq::empty(), false))
    } else {
        match var_segs_fold(segs, n - 1, vars) {
            None => None,
            Some((t, fs)) => {
                let i = n - 1;
                match segs[i] {
                    SegModel::Var(v) => match vars(v.name) {
                        Some(val) => Some(
                            (
                                t + (if i > 1 {
                                    delim_of(fs)
                                } else {
                                    Seq::empty()
                                }) + val,
                                fs,
                            ),
                        ),
                        None => None,
                    },
                    SegModel::FilesystemRootDir => Some((t + seq![':', '/'], true)),
                    other => Some(
                        (
                            t + (if i > 0 {
                                delim_of(fs)
                            } else {
                                Seq::empty()
                            }) + seg_text(other),
                            fs,
                        ),
                    ),
                }
            },
        }
    }
}

/// The text a point with variables is written out as once its variables are looked up in
/// `vars`; `None` where one has no value.
pub open spec fn var_resolved_text(p: PointModel, vars: spec_fn(Seq<char>) -> Option<Seq<char>>) -> Option<
    Seq<char>,
> {
    match (route_part(p.route, vars), var_segs_fold(p.segments, p.segments.len() as int, vars)) {
        (Some(r), Some((t, _))) => Some(
            r + t + (if p.segments.len() > 0 && p.segments.last() is Dir {
                seq!['/']
            } else {
                Seq::empty()
            }),
        ),
        _ => None,
    }
}

/// The point, with context references, that a point with variables resolves to.
pub open spec fn var_resolved(p: PointModel, vars: spec_fn(Seq<char>) -> Option<Seq<char>>) -> Option<
    PointModel,
> {
    match var_resolved_text(p, vars) {
        Some(t) => point_of(t),
        None => None,
    }
}

/// The variables a scope sees.
pub open spec fn scope_vars(env: Env) -> spec_fn(Seq<char>) -> Option<Seq<char>> {
    |k: Seq<char>| env.var(k)
}

/// No variables at all.
pub open spec fn no_vars() -> spec_fn(Seq<char>) -> Option<Seq<char>> {
    |k: Seq<char>| None::<Seq<char>>
}

/// The concrete point that a point with variables resolves to in two steps.
pub open spec fn fully_resolved(
    p: PointModel,
    vars: spec_fn(Seq<char>) -> Option<Seq<char>>,
    work: PointModel,
) -> Option<PointModel> {
    match var_resolved(p, vars) {
        Some(c) => ctx_resolved(c, work),
        None => None,
    }
}

fn trace_err(message: &str, label: &str, trace: &crate::point::Trace) -> (r: MsgErr)
    ensures
        r matches MsgErr::ParseErrs(e) && e.is_range_report(
            message@,
            label@,
            trace.range.start as int,
            trace.range.end as int,
        ),
{
    MsgErr::parse_error(
        message,
        label,
        std::ops::Range { start: trace.range.start, end: trace.range.end },
    )
}

/// The message of the report on a variable `name` that a resolver could not give a value.
pub open spec fn var_report_message(err: ResolverErr, name: Seq<char>) -> Seq<char> {
    match err {
        ResolverErr::NotAvailable => "variables not available in this context '"@ + name
            + seq!['\''],
        ResolverErr::NotFound => "variable could not be resolved '"@ + name + seq!['\''],
    }
}

/// The label of that report.
pub open spec fn var_report_label(err: ResolverErr) -> Seq<char> {
    match err {
        ResolverErr::NotAvailable => "Not Available"@,
        ResolverErr::NotFound => "Not Found"@,
    }
}

fn var_report(name: &String, err: ResolverErr, trace: &crate::point::Trace) -> (r: ParseErrs)
    ensures
        r.is_range_report(
            var_report_message(err, name@),
            var_report_label(err),
            trace.range.start as int,
            trace.range.end as int,
        ),
{
    let range = std::ops::Range { start: trace.range.start, end: trace.range.end };
    match err {
        ResolverErr::NotAvailable => {
            let mut m = String::new();
            push_str(&mut m, "variables not available in this context '");
            push_str(&mut m, name.as_str());
            push_char(&mut m, '\'');
            assert(m@ =~= var_report_message(err, name@));
            ParseErrs::from_range(m.as_str(), "Not Available", range)
        },
        ResolverErr::NotFound => {
            let mut m = String::new();
            push_str(&mut m, "variable could not be resolved '");
            push_str(&mut m, name.as_str());
            push_char(&mut m, '\'');
            assert(m@ =~= var_report_message(err, name@));
            ParseErrs::from_range(m.as_str(), "Not Found", range)
        },
    }
}

fn ctx_step_exec(point: &Point, seg: &PointSegCtx, i: usize, env: &Env) -> (r: Result<Point, MsgErr>)
    ensures
        point_outcome(r, ctx_step(point@, seg@, i as int, env.point@)),
{
    proof {
        reveal_strlit(":/");
    }
    let ghost want = ctx_step(point@, seg@, i as int, env.point@);
    let r = match seg {
        PointSegCtx::Working(trace) => {
            if i > 1 {
                Err(
                    trace_err(
                        "working point can only be referenced in the first point segment",
                        "first segment only",
                        trace,
                    ),
                )
            } else {
                env.point_or()
            }
        },
        PointSegCtx::Pop(trace) => {
            let mut q = if i <= 1 {
                env.point.clone()
            } else {
                point.clone()
            };
            if q.segments.len() == 0 {
                let mut m = String::new();
                push_str(&mut m, "Too many point pops. working point was: '");
                let w = env.point.to_string();
                push_str(&mut m, w.as_str());
                push_char(&mut m, '\'');
                Err(trace_err(m.as_str(), "too many point pops", trace))
            } else {
                let ghost before = q@;
                q.segments.pop();
                assert(q@.segments =~= before.segments.drop_last());
                Ok(q)
            }
        },
        PointSegCtx::FilesystemRootDir => {
            assert(":/"@ =~= seq![':', '/']);
            point.push(":/")
        },
        PointSegCtx::Root => Ok(point.clone()),
        PointSegCtx::Space(t) => point.push(t.as_str()),
        PointSegCtx::Base(t) => point.push(t.as_str()),
        PointSegCtx::Dir(t) => point.push(t.as_str()),
        PointSegCtx::File(t) => point.push(t.as_str()),
        PointSegCtx::Version(v) => {
            let t = v.to_string();
            point.push(t.as_str())
        },
    };
    r
}

/// Resolves the context references of a point against a scope.
pub fn resolve_point_ctx(p: PointCtx, env: &Env) -> (r: Result<Point, MsgErr>)
    ensures
        point_outcome(r, ctx_resolved(p@, env.point@)),
{
    if p.segments.len() == 0 {
        let segments: Vec<PointSeg> = Vec::new();
        let q = PointDef { route: p.route, segments };
        assert(q@.segments =~= Seq::<SegModel>::empty());
        return Ok(q);
    }
    let ghost model = p@;
    let ghost work = env.point@;
    let mut point = Point::root();
    let mut i: usize = 0;
    while i < p.segments.len()
        invariant
            model == p@,
            work == env.point@,
            i <= p.segments@.len(),
            ctx_fold(model.segments, i as int, work) == Some(point@),
        decreases p.segments@.len() - i,
    {
        assert(model.segments[i as int] == p.segments@[i as int]@);
        match ctx_step_exec(&point, &p.segments[i], i, env) {
            Ok(q) => {
                point = q;
            },
            Err(e) => {
                proof {
                    lemma_ctx_fold_none(model.segments, i + 1, model.segments.len() as int, work);
                }
                return Err(e);
            },
        }
        i = i + 1;
    }
    Ok(point)
}

fn route_var_text(route: &RouteSegVar, env: &Env, rtn: &mut String, errs: &mut Vec<ParseErrs>)
    ensures
        match route_part(route@, scope_vars(*env)) {
            Some(t) => final(rtn)@ == old(rtn)@ + t && final(errs)@ == old(errs)@,
            None => final(errs)@.len() > 0,
        },
        old(errs)@.len() > 0 ==> final(errs)@.len() > 0,
{
    proof {
        reveal_strlit("::");
        reveal_strlit("]::");
        reveal_strlit(">::");
        reveal_strlit("GLOBAL");
        reveal_strlit("LOCAL");
        reveal_strlit("REMOTE");
    }
    match route {
        RouteSegVar::Var(var) => match env.val(var.name.as_str()) {
            Ok(val) => {
                push_str(rtn, val.as_str());
                push_str(rtn, "::");
            },
            Err(err) => {
                errs.push(var_report(&var.name, err, &var.trace));
            },
        },
        RouteSegVar::This => {},
        RouteSegVar::Domain(domain) => {
            push_str(rtn, domain.as_str());
            push_str(rtn, "::");
        },
        RouteSegVar::Tag(tag) => {
            push_char(rtn, '[');
            push_str(rtn, tag.as_str());
            push_str(rtn, "]::");
        },
        RouteSegVar::Star(mesh) => {
            push_char(rtn, '<');
            push_str(rtn, mesh.as_str());
            push_str(rtn, ">::");
        },
        RouteSegVar::Global => {
            push_str(rtn, "GLOBAL");
        },
        RouteSegVar::Local => {
            push_str(rtn, "LOCAL");
        },
        RouteSegVar::Remote => {
            push_str(rtn, "REMOTE");
        },
    }
    assert(route_part(route@, scope_vars(*env)) matches Some(t) ==> final(rtn)@ =~= old(rtn)@ + t);
}

/// Resolves the variables of a point against a scope.
pub fn resolve_point_var(p: PointVar, env: &Env) -> (r: Result<PointCtx, MsgErr>)
    ensures
        match var_resolved(p@, scope_vars(*env)) {
            Some(m) => r matches Ok(q) && q@ == m,
            None => r is Err,
        },
{
    let ghost vars = scope_vars(*env);
    let ghost model = p@;
    let mut rtn = String::new();
    let mut errs: Vec<ParseErrs> = Vec::new();
    route_var_text(&p.route, env, &mut rtn, &mut errs);
    let ghost route_text_part = rtn@;
    let mut after_fs = false;
    let mut i: usize = 0;
    while i < p.segments.len()
        invariant
            model == p@,
            vars == scope_vars(*env),
            i <= p.segments@.len(),
            errs@.len() == 0 <==> (route_part(model.route, vars) is Some && var_segs_fold(
                model.segments,
                i as int,
                vars,
            ) is Some),
            errs@.len() == 0 ==> route_part(model.route, vars) == Some(route_text_part),
            errs@.len() == 0 ==> var_segs_fold(model.segments, i as int, vars) == Some(
                (rtn@.subrange(route_text_part.len() as int, rtn@.len() as int), after_fs),
            ),
            errs@.len() == 0 ==> rtn@.len() >= route_text_part.len() && rtn@.subrange(
                0,
                route_text_part.len() as int,
            ) == route_text_part,
        decreases p.segments@.len() - i,
    {
        assert(model.segments[i as int] == p.segments@[i as int]@);
        let ghost before = rtn@;
        match &p.segments[i] {
            PointSegVar::Var(var) => match env.val(var.name.as_str()) {
                Ok(val) => {
                    if i > 1 {
                        if after_fs {
                            push_char(&mut rtn, '/');
                        } else {
                            push_char(&mut rtn, ':');
                        }
                    }
                    push_str(&mut rtn, val.as_str());
                },
                Err(err) => {
                    errs.push(var_report(&var.name, err, &var.trace));
                },
            },
            PointSegVar::FilesystemRootDir => {
                after_fs = true;
                push_char(&mut rtn, ':');
                push_char(&mut rtn, '/');
            },
            segment => {
                if i > 0 {
                    if after_fs {
                        push_char(&mut rtn, '/');
                    } else {
                        push_char(&mut rtn, ':');
                    }
                }
                let t = segment.to_string();
                push_str(&mut rtn, t.as_str());
            },
        }
        proof {
            let k = route_text_part.len() as int;
            if errs@.len() == 0 {
                assert(rtn@.subrange(0, k) =~= route_text_part);
                assert(rtn@.subrange(k, rtn@.len() as int) =~= before.subrange(k, before.len() as int) + rtn@.subrange(before.len() as int, rtn@.len() as int));
            }
        }
        i = i + 1;
    }
    let ghost segs_text = rtn@.subrange(route_text_part.len() as int, rtn@.len() as int);
    if p.is_dir() {
        push_char(&mut rtn, '/');
    }
    if errs.len() > 0 {
        return Err(MsgErr::ParseErrs(ParseErrs::fold(errs)));
    }
    proof {
        let t = var_resolved_text(model, vars);
        assert(rtn@.subrange(0, route_text_part.len() as int) == route_text_part);
        if model.segments.len() > 0 && model.segments.last() is Dir {
            assert(rtn@ =~= route_text_part + segs_text + seq!['/']);
        } else {
            assert(rtn@ =~= route_text_part + segs_text);
        }
        assert(t == Some(rtn@));
    }
    consume_point_ctx(rtn.as_str())
}

/// A point with context references comes out exactly where `m` is a point, and an error
/// comes out where it is none.
pub open spec fn ctx_outcome(r: Result<PointCtx, MsgErr>, m: Option<PointModel>) -> bool {
    match m {
        Some(m) => r matches Ok(q) && q@ == m,
        None => r is Err,
    }
}

/// A concrete point comes out exactly where `m` is a point, and an error comes out where it is
/// none.
pub open spec fn point_outcome(r: Result<Point, MsgErr>, m: Option<PointModel>) -> bool {
    match m {
        Some(m) => r matches Ok(q) && q@ == m,
        None => r is Err,
    }
}

/// Resolution of variables and context references against a scope.
pub trait ToResolved<R>: Sized {
    /// Resolves without a scope: no variables and the root as the working point.
    fn collapse(self) -> Result<R, MsgErr>;

    /// Resolves against `env`.
    fn to_resolved(self, env: &Env) -> Result<R, MsgErr>;
}

impl ToResolved<PointCtx> for PointVar {
    fn collapse(self) -> (r: Result<PointCtx, MsgErr>)
        ensures
            r is Ok <==> crate::point::point_concrete(self@),
            r matches Ok(p) ==> p@ == self@,
    {
        PointVar::collapse(self)
    }

    fn to_resolved(self, env: &Env) -> (r: Result<PointCtx, MsgErr>)
        ensures
            ctx_outcome(r, var_resolved(self@, scope_vars(*env))),
    {
        resolve_point_var(self, env)
    }
}

impl ToResolved<Point> for PointCtx {
    fn collapse(self) -> (r: Result<Point, MsgErr>)
        ensures
            r is Ok <==> crate::point::point_concrete(self@),
            r matches Ok(p) ==> p@ == self@,
    {
        PointCtx::collapse(self)
    }

    fn to_resolved(self, env: &Env) -> (r: Result<Point, MsgErr>)
        ensures
            point_outcome(r, ctx_resolved(self@, env.point@)),
    {
        resolve_point_ctx(self, env)
    }
}

fn resolve_fully(p: PointVar, env: &Env) -> (r: Result<Point, MsgErr>)
    ensures
        point_outcome(r, fully_resolved(p@, scope_vars(*env), env.point@)),
{
    let ctx = resolve_point_var(p, env)?;
    resolve_point_ctx(ctx, env)
}

impl PointVar {
    /// Resolves the variables and then the context references against `env`.
    pub fn to_resolved_point(self, env: &Env) -> (r: Result<Point, MsgErr>)
        ensures
            point_outcome(r, fully_resolved(self@, scope_vars(*env), env.point@)),
    {
        resolve_fully(self, env)
    }

    /// Resolves against a scope with no variables whose working point is the root.
    pub fn to_point(self) -> (r: Result<Point, MsgErr>)
        ensures
            point_outcome(r, fully_resolved(self@, no_vars(), root_model())),
    {
        let env = Env::no_point();
        proof {
            assert(scope_vars(env) =~= no_vars());
        }
        resolve_fully(self, &env)
    }
}

/// The same work as `PointVar::to_point` and `PointVar::to_resolved_point`, whose contracts
/// say what comes out; a second impl of the trait for one type takes no `ensures` here.
impl ToResolved<Point> for PointVar {
    fn collapse(self) -> (r: Result<Point, MsgErr>) {
        self.to_point()
    }

    fn to_resolved(self, env: &Env) -> (r: Result<Point, MsgErr>) {
        resolve_fully(self, env)
    }
}

/// A value that can be read from its text.
pub trait FromText: Sized + View {
    /// What a text reads as, where it reads as a value at all.
    spec fn reads_as(s: Seq<char>) -> Option<Self::V>;

    /// Reads a whole text.
    fn from_text(s: &str) -> (r: Result<Self, MsgErr>)
        ensures
            match Self::reads_as(s@) {
                Some(v) => r matches Ok(x) && x@ == v,
                None => r is Err,
            },
    ;
}

impl FromText for CamelCase {
    open spec fn reads_as(s: Seq<char>) -> Option<Seq<char>> {
        if camel_ok(s) {
            Some(s)
        } else {
            None
        }
    }

    fn from_text(s: &str) -> (r: Result<Self, MsgErr>) {
        CamelCase::from_str(s)
    }
}

impl FromText for SkewerCase {
    open spec fn reads_as(s: Seq<char>) -> Option<Seq<char>> {
        if skewer_ok(s) {
            Some(s)
        } else {
            None
        }
    }

    fn from_text(s: &str) -> (r: Result<Self, MsgErr>) {
        SkewerCase::from_str(s)
    }
}

impl FromText for Domain {
    open spec fn reads_as(s: Seq<char>) -> Option<Seq<char>> {
        if domain_ok(s) {
            Some(s)
        } else {
            None
        }
    }

    fn from_text(s: &str) -> (r: Result<Self, MsgErr>) {
        Domain::from_str(s)
    }
}

impl FromText for Version {
    open spec fn reads_as(s: Seq<char>) -> Option<VersionModel> {
        semver_parse(s)
    }

    fn from_text(s: &str) -> (r: Result<Self, MsgErr>) {
        Version::from_str(s)
    }
}

impl FromText for Point {
    open spec fn reads_as(s: Seq<char>) -> Option<PointModel> {
        point_of(s)
    }

    fn from_text(s: &str) -> (r: Result<Self, MsgErr>) {
        Point::from_str(s)
    }
}

/// The error for an unknown variable: a single report saying that it was not found.
pub open spec fn not_found_report(e: MsgErr, name: Seq<char>) -> bool {
    &&& e matches MsgErr::ParseErrs(p)
    &&& p.report@.len() == 1
    &&& p.report@[0].msg matches Some(m)
    &&& m@ == "variable '"@ + name + "' not found"@
}

/// A value given outright, or the name of a variable that holds its text, with where it stood.
pub enum VarVal<V> {
    Var(SkewerCase, Trace),
    Val(V, Trace),
}

impl<V: FromText> VarVal<V> {
    /// The value: a variable is looked up in `env` and its text read; an unknown variable, or a
    /// text that does not read as a value, is an error.
    pub fn to_resolved(self, env: &Env) -> (r: Result<V, MsgErr>)
        ensures
            match self {
                VarVal::Var(name, _) => match env.var(name@) {
                    Some(text) => match V::reads_as(text) {
                        Some(v) => r matches Ok(x) && x@ == v,
                        None => r is Err,
                    },
                    None => r matches Err(e) && not_found_report(e, name@),
                },
                VarVal::Val(v, _) => r matches Ok(x) && x == v,
            },
    {
        match self {
            VarVal::Var(name, trace) => match env.val(name.as_str()) {
                Ok(text) => V::from_text(text.as_str()),
                Err(ResolverErr::NotAvailable) => Err(
                    MsgErr::ParseErrs(
                        ParseErrs::from_range(
                            "variables not available in this context",
                            "variables not available",
                            trace.range,
                        ),
                    ),
                ),
                Err(ResolverErr::NotFound) => {
                    let mut message = "variable '".to_string();
                    push_str(&mut message, name.as_str());
                    push_str(&mut message, "' not found");
                    Err(
                        MsgErr::ParseErrs(
                            ParseErrs::from_range(message.as_str(), "not found", trace.range),
                        ),
                    )
                },
            },
            VarVal::Val(v, _) => Ok(v),
        }
    }
}

} // verus!
