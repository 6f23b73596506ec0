//! System-level records: assignments, interchanges, where a particle is, and message methods.
use vstd::prelude::*;
use crate::case::camel_ok;
use crate::command::StateSrc;
use crate::error::MsgErr;
use crate::point::{point_string, Point, PointModel};
use crate::text::{alnum, chars_of, is_alnum, upper};
use crate::util::ValueMatcher;

verus! {

/// How a particle came to be assigned to a star.
#[derive(Debug, Clone, Copy, PartialEq, Eq, Structural)]
pub enum AssignmentKind {
    Create,
}

/// An assignment of a particle to a star: how it came about, the particle's details and the
/// source of its state.
pub struct Assign<D> {
    pub kind: AssignmentKind,
    pub details: D,
    pub state: StateSrc,
}

impl<D> Assign<D> {
    pub fn new(kind: AssignmentKind, details: D, state: StateSrc) -> (r: Self)
        ensures
            r.kind == kind,
            r.details == details,
            r.state == state,
    {
        Self { kind, details, state }
    }
}

/// The kinds of interchange a connection enters by.
#[derive(Debug, Clone, Copy, PartialEq, Eq, Hash, Structural)]
pub enum InterchangeKind {
    Cli,
    Portal,
}

/// Where a particle is: at the central star, nowhere, or at a point.
pub enum Location {
    Central,
    Nowhere,
    Somewhere(Point),
}

/// `GLOBAL::central`.
pub open spec fn central_model() -> PointModel {
    PointModel {
        route: crate::point::RouteModel::Global,
        segments: seq![crate::point::SegModel::Space("central"@)],
    }
}

impl Location {
    pub fn new(point: Point) -> (r: Self)
        ensures
            r == Location::Somewhere(point),
    {
        Location::Somewhere(point)
    }

    /// The point, where the particle is somewhere.
    pub fn ok_or(&self) -> (r: Result<Point, MsgErr>)
        ensures
            match self {
                Location::Nowhere => r is Err,
                Location::Somewhere(p) => r matches Ok(q) && q@ == p@,
                Location::Central => r matches Ok(q) && q@ == central_model(),
            },
    {
        match self {
            Location::Nowhere => Err(MsgErr::from_500("Particle is presently nowhere")),
            Location::Somewhere(point) => Ok(point.clone()),
            Location::Central => Ok(Point::central()),
        }
    }

    pub fn to_string(&self) -> (r: String)
        ensures
            r@ == (match self {
                Location::Nowhere => "Unassigned"@,
                Location::Somewhere(p) => point_string(p@),
                Location::Central => point_string(central_model()),
            }),
    {
        match self {
            Location::Nowhere => "Unassigned".to_string(),
            Location::Somewhere(point) => point.to_string(),
            Location::Central => Point::central().to_string(),
        }
    }
}

/// The method of a message: a name in camel case.
#[derive(Debug, PartialEq, Eq, Hash)]
pub struct MsgMethod {
    string: String,
}

impl View for MsgMethod {
    type V = Seq<char>;

    closed spec fn view(&self) -> Seq<char> {
        self.string@
    }
}

impl MsgMethod {
    /// A method named by a whole camel case text.
    pub fn new(string: &str) -> (r: Result<Self, MsgErr>)
        ensures
            r is Ok <==> camel_ok(string@),
            r matches Ok(m) ==> m@ == string@,
    {
        let cs = chars_of(string);
        if cs.len() == 0 || !upper(cs[0]) {
            return Err(MsgErr::from_500("expected a camel case method"));
        }
        let mut i: usize = 1;
        while i < cs.len()
            invariant
                cs@ == string@,
                1 <= i <= cs@.len(),
                forall|j: int| 1 <= j < i ==> is_alnum(#[trigger] cs@[j]),
            decreases cs@.len() - i,
        {
            if !alnum(cs[i]) {
                return Err(MsgErr::from_500("expected a camel case method"));
            }
            i = i + 1;
        }
        Ok(MsgMethod { string: string.to_string() })
    }

    /// The method `Def`.
    pub fn default() -> (r: Self)
        ensures
            r@ == "Def"@,
    {
        Self { string: "Def".to_string() }
    }

    pub fn to_string(&self) -> (r: String)
        ensures
            r@ == self@,
    {
        self.string.clone()
    }
}

impl ValueMatcher<MsgMethod> for MsgMethod {
    open spec fn accepts(&self, x: MsgMethod) -> bool {
        self@ == x@
    }

    fn is_match(&self, x: &MsgMethod) -> (r: Result<(), ()>) {
        if self.string == x.string {
            Ok(())
        } else {
            Err(())
        }
    }
}

} // verus!
