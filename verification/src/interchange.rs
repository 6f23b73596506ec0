//! The hyperway interchange: the hyperways it holds, keyed by their remote point, and what it
//! does with each call it gets.
use vstd::prelude::*;
use crate::point::{Point, PointModel};
use crate::port::point_eq;

verus! {

/// The hyperways held: for a remote point, the handle of its hyperway; a later entry for a
/// point replaces an earlier one.
pub open spec fn ways_map(s: Seq<(Point, u64)>) -> Map<PointModel, u64>
    decreases s.len(),
{
    if s.len() == 0 {
        Map::empty()
    } else {
        ways_map(s.drop_last()).insert(s.last().0@, s.last().1)
    }
}

/// Entries after position `i` that are not for point `k` do not change what is held for `k`.
proof fn lemma_ways_suffix(s: Seq<(Point, u64)>, i: int, k: PointModel)
    requires
        0 <= i <= s.len(),
        forall|j: int| i <= j < s.len() ==> (#[trigger] s[j]).0@ != k,
    ensures
        ways_map(s).contains_key(k) == ways_map(s.take(i)).contains_key(k),
        ways_map(s).contains_key(k) ==> ways_map(s)[k] == ways_map(s.take(i))[k],
    decreases s.len(),
{
    if s.len() == i {
        assert(s.take(i) =~= s);
    } else {
        let t = s.drop_last();
        assert(t.take(i) =~= s.take(i));
        assert forall|j: int| i <= j < t.len() implies (#[trigger] t[j]).0@ != k by {
            assert(t[j] == s[j]);
        }
        lemma_ways_suffix(t, i, k);
        assert(s[s.len() - 1].0@ != k);
    }
}

/// A call the interchange gets.
pub enum InterchangeEvent {
    /// A hyperway to the remote point, with its handle.
    Add { remote: Point, way: u64 },
    /// The hyperway to a remote point goes.
    Remove { remote: Point },
    /// A wave to route: the point of its one recipient, or `None` where it has several.
    Wave { to: Option<Point> },
    /// A request to mount the hyperway to a remote point.
    Mount { remote: Point },
}

/// What the interchange does with a call.
#[derive(Debug, Clone, Copy, PartialEq, Eq, Structural)]
pub enum InterchangeAction {
    /// Relay the waves that come in on the added hyperway back to the interchange.
    Listen { way: u64 },
    /// Send the wave out on this hyperway.
    Forward { way: u64 },
    /// Mount this hyperway and answer the request with it.
    Mount { way: u64 },
    /// Warn that a wave with several recipients cannot be routed here.
    WarnNotSingle,
    /// Nothing.
    Nothing,
}

/// The hyperways held after a call, and what the interchange does with it.
pub open spec fn interchange_next(m: Map<PointModel, u64>, ev: InterchangeEvent) -> (
    Map<PointModel, u64>,
    InterchangeAction,
) {
    match ev {
        InterchangeEvent::Add { remote, way } => (
            m.insert(remote@, way),
            InterchangeAction::Listen { way },
        ),
        InterchangeEvent::Remove { remote } => (m.remove(remote@), InterchangeAction::Nothing),
        InterchangeEvent::Wave { to } => match to {
            Some(p) => if m.contains_key(p@) {
                (m, InterchangeAction::Forward { way: m[p@] })
            } else {
                (m, InterchangeAction::Nothing)
            },
            None => (m, InterchangeAction::WarnNotSingle),
        },
        InterchangeEvent::Mount { remote } => if m.contains_key(remote@) {
            (m, InterchangeAction::Mount { way: m[remote@] })
        } else {
            (m, InterchangeAction::Nothing)
        },
    }
}

/// The hyperways an interchange holds.
pub struct InterchangeState {
    ways: Vec<(Point, u64)>,
}

impl View for InterchangeState {
    type V = Map<PointModel, u64>;

    closed spec fn view(&self) -> Map<PointModel, u64> {
        ways_map(self.ways@)
    }
}

impl InterchangeState {
    pub fn new() -> (r: Self)
        ensures
            r@ == Map::<PointModel, u64>::empty(),
    {
        InterchangeState { ways: Vec::new() }
    }

    /// The handle of the hyperway to `remote`, if one is held.
    pub fn get(&self, remote: &Point) -> (r: Option<u64>)
        ensures
            r is None <==> !self@.contains_key(remote@),
            r matches Some(w) ==> self@[remote@] == w,
    {
        let mut i = self.ways.len();
        while i > 0
            invariant
                i <= self.ways@.len(),
                forall|j: int| i <= j < self.ways@.len() ==> (#[trigger] self.ways@[j]).0@
                    != remote@,
            decreases i,
        {
            if point_eq(&self.ways[i - 1].0, remote) {
                proof {
                    lemma_ways_suffix(self.ways@, i as int, remote@);
                    let t = self.ways@.take(i as int);
                    assert(t.drop_last() =~= self.ways@.take(i - 1));
                    assert(t.last() == self.ways@[i - 1]);
                }
                return Some(self.ways[i - 1].1);
            }
            i = i - 1;
        }
        proof {
            lemma_ways_suffix(self.ways@, 0, remote@);
            assert(self.ways@.take(0) =~= Seq::<(Point, u64)>::empty());
        }
        None
    }

    /// Holds `way` as the hyperway to `remote`, replacing one held before.
    pub fn insert(&mut self, remote: Point, way: u64)
        ensures
            final(self)@ == old(self)@.insert(remote@, way),
    {
        let ghost before = self.ways@;
        self.ways.push((remote, way));
        assert(self.ways@.drop_last() =~= before);
    }

    /// No longer holds a hyperway to `remote`.
    pub fn remove(&mut self, remote: &Point)
        ensures
            final(self)@ == old(self)@.remove(remote@),
    {
        let ghost s = self.ways@;
        let mut kept: Vec<(Point, u64)> = Vec::new();
        let mut i: usize = 0;
        while i < self.ways.len()
            invariant
                self.ways@ == s,
                i <= s.len(),
                ways_map(kept@) == ways_map(s.take(i as int)).remove(remote@),
            decreases s.len() - i,
        {
            let ghost before = kept@;
            let ghost t = s.take(i + 1);
            assert(t.drop_last() =~= s.take(i as int));
            assert(t.last() == s[i as int]);
            if !point_eq(&self.ways[i].0, remote) {
                let p = self.ways[i].0.clone();
                proof {
                    assert(p@.route == s[i as int].0@.route);
                    assert(p@.segments =~= s[i as int].0@.segments);
                }
                kept.push((p, self.ways[i].1));
                assert(kept@.drop_last() =~= before);
                assert(ways_map(kept@) =~= ways_map(s.take(i + 1)).remove(remote@));
            } else {
                assert(ways_map(s.take(i + 1)).remove(remote@) =~= ways_map(
                    s.take(i as int),
                ).remove(remote@));
            }
            i = i + 1;
        }
        assert(s.take(s.len() as int) =~= s);
        self.ways = kept;
    }
}

/// What the interchange does with a call: hold an added hyperway (replacing one to the same
/// point) and relay what comes in on it, drop a removed one, forward a wave to the hyperway of
/// its one recipient (nothing where none is held; a warning where it has several recipients),
/// and mount the hyperway a mount request names, where one is held.
pub fn interchange_step(state: &mut InterchangeState, ev: InterchangeEvent) -> (r:
    InterchangeAction)
    ensures
        final(state)@ == interchange_next(old(state)@, ev).0,
        r == interchange_next(old(state)@, ev).1,
{
    match ev {
        InterchangeEvent::Add { remote, way } => {
            state.insert(remote, way);
            InterchangeAction::Listen { way }
        },
        InterchangeEvent::Remove { remote } => {
            state.remove(&remote);
            InterchangeAction::Nothing
        },
        InterchangeEvent::Wave { to } => match to {
            Some(p) => match state.get(&p) {
                Some(way) => InterchangeAction::Forward { way },
                None => InterchangeAction::Nothing,
            },
            None => InterchangeAction::WarnNotSingle,
        },
        InterchangeEvent::Mount { remote } => match state.get(&remote) {
            Some(way) => InterchangeAction::Mount { way },
            None => InterchangeAction::Nothing,
        },
    }
}

} // verus!
