//! Commands on particles: the properties they set, what they get, and how their points and
//! state sources are resolved against a scope.
use vstd::prelude::*;
use crate::case::CamelCase;
use crate::env::{Env, ResolverErr};
use crate::error::MsgErr;
use crate::kind::SpecificSelector;
use crate::kinds::BaseKind;
use crate::point::{seg_text, Point, PointCtx, PointModel, PointSegQuery, PointVar, Variable};
use crate::parse::{is_point_error, point_var, point_var_at};
use crate::errreport::{create_err_report, err_report_of, is_err_report};
use crate::resolve::{
    ctx_resolved, no_vars, resolve_point_ctx, resolve_point_var, root_model, scope_vars,
    var_resolved, ToResolved,
};
use crate::textmap::{entries_map, lemma_entries_suffix, Duplicate, TextMap};
use crate::text::{chars_of, push_char, push_str, string_of};

verus! {

/// A payload: text or raw bytes.
#[derive(Debug, PartialEq, Eq)]
pub enum Substance {
    Text(String),
    Bin(Vec<u8>),
}

/// Where a new particle's state comes from: nowhere, or a payload.
#[derive(Debug, PartialEq, Eq)]
pub enum StateSrc {
    Nothing,
    Substance(Box<Substance>),
}

/// Where a new particle's state comes from before resolution: nowhere, a named file, or a
/// variable that names a file.
#[derive(Debug, PartialEq, Eq)]
pub enum StateSrcVar {
    Nothing,
    FileRef(String),
    Var(Variable),
}

/// The abstract value of a property change.
pub enum PropModel {
    Assign { key: Seq<char>, value: Seq<char>, lock: bool },
    UnSet(Seq<char>),
}

/// A change to a property: set it to a value (possibly locked), or unset it.
#[derive(Debug, PartialEq, Eq)]
pub enum PropertyMod {
    Assign { key: String, value: String, lock: bool },
    UnSet(String),
}

impl View for PropertyMod {
    type V = PropModel;

    open spec fn view(&self) -> PropModel {
        match self {
            PropertyMod::Assign { key, value, lock } => PropModel::Assign {
                key: key@,
                value: value@,
                lock: *lock,
            },
            PropertyMod::UnSet(k) => PropModel::UnSet(k@),
        }
    }
}

/// The property a change is about.
pub open spec fn prop_key(p: PropModel) -> Seq<char> {
    match p {
        PropModel::Assign { key, .. } => key,
        PropModel::UnSet(k) => k,
    }
}

impl Duplicate for PropertyMod {
    fn duplicate(&self) -> (r: Self) {
        match self {
            PropertyMod::Assign { key, value, lock } => PropertyMod::Assign {
                key: key.clone(),
                value: value.clone(),
                lock: *lock,
            },
            PropertyMod::UnSet(k) => PropertyMod::UnSet(k.clone()),
        }
    }
}

impl PropertyMod {
    /// The value set, or `err` for an unset.
    pub fn set_or<E>(&self, err: E) -> (r: Result<String, E>)
        ensures
            match self@ {
                PropModel::Assign { value, .. } => r matches Ok(v) && v@ == value,
                PropModel::UnSet(_) => r == Err::<String, E>(err),
            },
    {
        match self {
            Self::Assign { key: _, value, lock: _ } => Ok(value.clone()),
            Self::UnSet(_) => Err(err),
        }
    }

    /// The value set, if any.
    pub fn opt(&self) -> (r: Option<String>)
        ensures
            match self@ {
                PropModel::Assign { value, .. } => r matches Some(v) && v@ == value,
                PropModel::UnSet(_) => r is None,
            },
    {
        match self {
            Self::Assign { key: _, value, lock: _ } => Some(value.clone()),
            Self::UnSet(_) => None,
        }
    }

    /// The property this change is about.
    pub fn key(&self) -> (r: &String)
        ensures
            r@ == prop_key(self@),
    {
        match self {
            Self::Assign { key, value: _, lock: _ } => key,
            Self::UnSet(key) => key,
        }
    }
}

/// Property changes, at most one per property.
pub struct SetProperties {
    pub map: TextMap<PropertyMod>,
}

/// Every change is stored under the property it is about.
pub open spec fn keyed_by_property(m: Map<Seq<char>, PropModel>) -> bool {
    forall|k: Seq<char>| m.contains_key(k) ==> prop_key(#[trigger] m[k]) == k
}

impl SetProperties {
    pub fn new() -> (r: Self)
        ensures
            r.map@ == Map::<Seq<char>, PropModel>::empty(),
    {
        Self { map: TextMap::new() }
    }

    pub fn default() -> (r: Self)
        ensures
            r.map@ == Map::<Seq<char>, PropModel>::empty(),
    {
        Self::new()
    }

    /// Records a change under the property it is about, replacing an earlier one.
    pub fn push(&mut self, property: PropertyMod)
        ensures
            final(self).map@ == old(self).map@.insert(prop_key(property@), property@),
    {
        let key = property.key().clone();
        self.map.insert(key, property);
    }

    /// Records every change that `properties` holds, each under the property it is about.
    pub fn append(&mut self, properties: SetProperties)
        ensures
            forall|k: Seq<char>|
                #![trigger final(self).map@.contains_key(k)]
                final(self).map@.contains_key(k) <==> (old(self).map@.contains_key(k)
                    || sets_key(properties.map@, k)),
            forall|k: Seq<char>|
                #![trigger sets_key(properties.map@, k)]
                sets_key(properties.map@, k) ==> exists|k2: Seq<char>|
                    #![trigger properties.map@[k2]]
                    properties.map@.contains_key(k2) && prop_key(properties.map@[k2]) == k
                        && final(self).map@[k] == properties.map@[k2],
            forall|k: Seq<char>|
                #![trigger old(self).map@[k]]
                !sets_key(properties.map@, k) && old(self).map@.contains_key(k)
                    ==> final(self).map@[k] == old(self).map@[k],
            keyed_by_property(properties.map@) ==> final(self).map@ == old(self).map@.union_prefer_right(
                properties.map@,
            ),
    {
        let entries = properties.map.entries();
        let ghost s = properties.map.entries_seq();
        let ghost start = self.map@;
        proof {
            properties.map.lemma_view();
        }
        let mut i: usize = 0;
        while i < entries.len()
            invariant
                entries@ == s,
                i <= s.len(),
                forall|k: Seq<char>|
                    #![trigger self.map@.contains_key(k)]
                    self.map@.contains_key(k) <==> (start.contains_key(k) || sets_key_before(
                        s,
                        i as int,
                        k,
                    )),
                forall|k: Seq<char>|
                    #![trigger sets_key_before(s, i as int, k)]
                    sets_key_before(s, i as int, k) ==> exists|j: int|
                        #![trigger s[j]]
                        0 <= j < i && live_at(s, j) && prop_key(s[j].1@) == k && self.map@[k]
                            == s[j].1@,
                forall|k: Seq<char>|
                    #![trigger start[k]]
                    !sets_key_before(s, i as int, k) && start.contains_key(k) ==> self.map@[k]
                        == start[k],
            decreases s.len() - i,
        {
            let ghost before = self.map@;
            let ghost ii = i as int;
            if entry_is_live(entries, i) {
                let p = entries[i].1.duplicate();
                let ghost pk = prop_key(p@);
                self.push(p);
                assert forall|k: Seq<char>| #![trigger self.map@.contains_key(k)]
                    self.map@.contains_key(k) <==> (start.contains_key(k) || sets_key_before(
                        s,
                        ii + 1,
                        k,
                    )) by {
                    if sets_key_before(s, ii + 1, k) && !sets_key_before(s, ii, k) {
                        let j = choose|j: int| 0 <= j < ii + 1 && live_at(s, j) && prop_key(s[j].1@) == k;
                        assert(j == ii);
                    }
                    if k == pk {
                        assert(s[ii] == entries@[ii as int]);
                        assert(0 <= ii < ii + 1 && live_at(s, ii) && prop_key(s[ii].1@) == k);
                    }
                    if sets_key_before(s, ii, k) {
                        let j = choose|j: int| 0 <= j < ii && live_at(s, j) && prop_key(s[j].1@) == k;
                        assert(0 <= j < ii + 1 && live_at(s, j) && prop_key(s[j].1@) == k);
                    }
                }
                assert forall|k: Seq<char>| #![trigger sets_key_before(s, ii + 1, k)]
                    sets_key_before(s, ii + 1, k) implies exists|j: int|
                    #![trigger s[j]]
                    0 <= j < ii + 1 && live_at(s, j) && prop_key(s[j].1@) == k && self.map@[k]
                        == s[j].1@ by {
                    if k == pk {
                        assert(s[ii] == entries@[ii as int]);
                        assert(0 <= ii < ii + 1 && live_at(s, ii) && prop_key(s[ii].1@) == k
                            && self.map@[k] == s[ii].1@);
                    } else {
                        let j = choose|j: int| 0 <= j < ii + 1 && live_at(s, j) && prop_key(s[j].1@) == k;
                        if j == ii {
                            assert(s[ii] == entries@[ii as int]);
                        }
                        assert(sets_key_before(s, ii, k));
                    }
                }
                assert forall|k: Seq<char>| #![trigger start[k]]
                    !sets_key_before(s, ii + 1, k) && start.contains_key(k) implies self.map@[k]
                    == start[k] by {
                    if k == pk {
                        assert(s[ii] == entries@[ii as int]);
                        assert(0 <= ii < ii + 1 && live_at(s, ii) && prop_key(s[ii].1@) == k);
                    }
                    if sets_key_before(s, ii, k) {
                        let j = choose|j: int| 0 <= j < ii && live_at(s, j) && prop_key(s[j].1@) == k;
                        assert(0 <= j < ii + 1 && live_at(s, j) && prop_key(s[j].1@) == k);
                    }
                }
            } else {
                assert forall|k: Seq<char>| sets_key_before(s, ii + 1, k) == sets_key_before(
                    s,
                    ii,
                    k,
                ) by {
                    if sets_key_before(s, ii + 1, k) {
                        let j = choose|j: int| 0 <= j < ii + 1 && live_at(s, j) && prop_key(s[j].1@) == k;
                        assert(j != ii);
                        assert(0 <= j < ii && live_at(s, j) && prop_key(s[j].1@) == k);
                    }
                    if sets_key_before(s, ii, k) {
                        let j = choose|j: int| 0 <= j < ii && live_at(s, j) && prop_key(s[j].1@) == k;
                        assert(0 <= j < ii + 1 && live_at(s, j) && prop_key(s[j].1@) == k);
                    }
                }
                assert forall|k: Seq<char>| #![trigger sets_key_before(s, ii + 1, k)]
                    sets_key_before(s, ii + 1, k) implies exists|j: int|
                    #![trigger s[j]]
                    0 <= j < ii + 1 && live_at(s, j) && prop_key(s[j].1@) == k && self.map@[k]
                        == s[j].1@ by {
                    assert(sets_key_before(s, ii, k));
                    let j = choose|j: int|
                        #![trigger s[j]]
                        0 <= j < ii && live_at(s, j) && prop_key(s[j].1@) == k && self.map@[k]
                            == s[j].1@;
                    assert(0 <= j < ii + 1 && live_at(s, j) && prop_key(s[j].1@) == k
                        && self.map@[k] == s[j].1@);
                }
            }
            i = i + 1;
        }
        proof {
            lemma_live_sets_key(s);
            let m = entries_map(s);
            assert forall|k: Seq<char>|
                #![trigger sets_key(m, k)]
                sets_key(m, k) ==> exists|k2: Seq<char>|
                    #![trigger m[k2]]
                    m.contains_key(k2) && prop_key(m[k2]) == k && self.map@[k] == m[k2] by {
                if sets_key(m, k) {
                    let j = choose|j: int| 0 <= j < s.len() && live_at(s, j) && prop_key(s[j].1@) == k
                        && self.map@[k] == s[j].1@;
                    lemma_live_value(s, j);
                    assert(m.contains_key(s[j].0@) && prop_key(m[s[j].0@]) == k && self.map@[k]
                        == m[s[j].0@]);
                }
            }
            if keyed_by_property(m) {
                law_append_is_union(start, m, self.map@);
            }
        }
    }
}

/// Some change that `m` holds is about the property `k`.
pub open spec fn sets_key(m: Map<Seq<char>, PropModel>, k: Seq<char>) -> bool {
    exists|k2: Seq<char>| #[trigger] m.contains_key(k2) && prop_key(m[k2]) == k
}

/// The entry at `j` is not set again later: it is the one the map holds for its key.
pub open spec fn live_at<V>(s: Seq<(String, V)>, j: int) -> bool {
    forall|l: int| j < l < s.len() ==> (#[trigger] s[l]).0@ != s[j].0@
}

/// Some entry before `i` that is not set again later is a change about the property `k`.
pub open spec fn sets_key_before(s: Seq<(String, PropertyMod)>, i: int, k: Seq<char>) -> bool {
    exists|j: int| 0 <= j < i && #[trigger] live_at(s, j) && prop_key(s[j].1@) == k
}

/// Whether the entry at `i` is not set again later.
fn entry_is_live(entries: &Vec<(String, PropertyMod)>, i: usize) -> (b: bool)
    requires
        i < entries@.len(),
    ensures
        b == live_at(entries@, i as int),
{
    let n = entries.len();
    let mut l = i + 1;
    while l < n
        invariant
            n == entries@.len(),
            i < l <= n,
            forall|m: int| i < m < l ==> (#[trigger] entries@[m]).0@ != entries@[i as int].0@,
        decreases entries@.len() - l,
    {
        if entries[l].0 == entries[i].0 {
            return false;
        }
        l = l + 1;
    }
    true
}

/// The map holds, at the key of an entry not set again later, that entry's value.
pub proof fn lemma_live_value<V: View>(s: Seq<(String, V)>, j: int)
    requires
        0 <= j < s.len(),
        live_at(s, j),
    ensures
        entries_map(s).contains_key(s[j].0@),
        entries_map(s)[s[j].0@] == s[j].1@,
{
    lemma_entries_suffix(s, j + 1, s[j].0@);
    let t = s.take(j + 1);
    assert(t.drop_last() =~= s.take(j));
    assert(t.last() == s[j]);
}

/// A change the map holds about property `k` is the value of an entry not set again later.
pub proof fn lemma_live_sets_key(s: Seq<(String, PropertyMod)>)
    ensures
        forall|k: Seq<char>|
            #![trigger sets_key(entries_map(s), k)]
            sets_key(entries_map(s), k) <==> sets_key_before(s, s.len() as int, k),
{
    let m = entries_map(s);
    assert forall|k: Seq<char>| sets_key(m, k) <==> sets_key_before(s, s.len() as int, k) by {
        if sets_key(m, k) {
            let k2 = choose|k2: Seq<char>| #[trigger] m.contains_key(k2) && prop_key(m[k2]) == k;
            let j = lemma_live_index(s, k2);
            lemma_live_value(s, j);
            assert(0 <= j < s.len() && live_at(s, j) && prop_key(s[j].1@) == k);
        }
        if sets_key_before(s, s.len() as int, k) {
            let j = choose|j: int| 0 <= j < s.len() && #[trigger] live_at(s, j) && prop_key(s[j].1@) == k;
            lemma_live_value(s, j);
            assert(m.contains_key(s[j].0@) && prop_key(m[s[j].0@]) == k);
        }
    }
}

/// A key the map holds has an entry not set again later.
pub proof fn lemma_live_index<V: View>(s: Seq<(String, V)>, k: Seq<char>) -> (j: int)
    requires
        entries_map(s).contains_key(k),
    ensures
        0 <= j < s.len(),
        live_at(s, j),
        s[j].0@ == k,
    decreases s.len(),
{
    if s.last().0@ == k {
        (s.len() - 1) as int
    } else {
        let t = s.drop_last();
        let j = lemma_live_index(t, k);
        assert forall|l: int| j < l < s.len() implies (#[trigger] s[l]).0@ != s[j].0@ by {
            if l < t.len() {
                assert(s[l] == t[l]);
            }
        }
        assert(s[j] == t[j]);
        j
    }
}

/// Appending changes stored under the properties they are about adds them to the map, each
/// replacing what was there for its property.
pub proof fn law_append_is_union(
    before: Map<Seq<char>, PropModel>,
    appended: Map<Seq<char>, PropModel>,
    after: Map<Seq<char>, PropModel>,
)
    requires
        keyed_by_property(appended),
        forall|k: Seq<char>|
            #![trigger after.contains_key(k)]
            after.contains_key(k) <==> (before.contains_key(k) || sets_key(appended, k)),
        forall|k: Seq<char>|
            #![trigger sets_key(appended, k)]
            sets_key(appended, k) ==> exists|k2: Seq<char>|
                #![trigger appended[k2]]
                appended.contains_key(k2) && prop_key(appended[k2]) == k && after[k]
                    == appended[k2],
        forall|k: Seq<char>|
            #![trigger before[k]]
            !sets_key(appended, k) && before.contains_key(k) ==> after[k] == before[k],
    ensures
        after == before.union_prefer_right(appended),
{
    let u = before.union_prefer_right(appended);
    assert forall|k: Seq<char>| sets_key(appended, k) <==> appended.contains_key(k) by {
        if appended.contains_key(k) {
            assert(prop_key(appended[k]) == k);
        }
    }
    assert forall|k: Seq<char>| after.contains_key(k) <==> u.contains_key(k) by {
        assert(sets_key(appended, k) <==> appended.contains_key(k));
    }
    assert forall|k: Seq<char>| after.contains_key(k) implies after[k] == u[k] by {
        if appended.contains_key(k) {
            assert(sets_key(appended, k));
            let k2 = choose|k2: Seq<char>|
                appended.contains_key(k2) && prop_key(appended[k2]) == k && after[k]
                    == appended[k2];
            assert(prop_key(appended[k2]) == k2);
        } else {
            assert(!sets_key(appended, k));
            assert(before.contains_key(k));
            assert(after[k] == before[k]);
        }
    }
    assert(after =~= u);
}

/// A change to a label of the registry.
#[derive(Debug, PartialEq, Eq)]
pub enum SetLabel {
    Label(String),
    SetValue { key: String, value: String },
    Unset(String),
}

/// Label changes for the registry.
pub struct SetRegistry {
    pub labels: Vec<SetLabel>,
}

impl SetRegistry {
    pub fn default() -> (r: Self)
        ensures
            r.labels@.len() == 0,
    {
        Self { labels: Vec::new() }
    }
}

/// The types of resource command.
#[derive(Debug, Clone, Copy, PartialEq, Eq, Structural)]
pub enum RcCommandType {
    Create,
    Select,
    Update,
    Query,
    Get,
    SetOp,
}

impl RcCommandType {
    pub fn to_string(&self) -> (r: String)
        ensures
            r@ == (match self {
                RcCommandType::Create => "Create"@,
                RcCommandType::Select => "Select"@,
                RcCommandType::Update => "Update"@,
                RcCommandType::Query => "Query"@,
                RcCommandType::Get => "Get"@,
                RcCommandType::SetOp => "Set"@,
            }),
    {
        let s = match self {
            RcCommandType::Create => "Create",
            RcCommandType::Select => "Select",
            RcCommandType::Update => "Update",
            RcCommandType::Query => "Query",
            RcCommandType::Get => "Get",
            RcCommandType::SetOp => "Set",
        };
        s.to_string()
    }
}

/// The point of a command resolved: a point with variables resolves to one with context
/// references, and exactly where the point's resolution succeeds.
pub open spec fn point_var_step(p: PointModel, env: Env, q: PointModel) -> bool {
    var_resolved(p, scope_vars(env)) == Some(q)
}

/// Sets properties of the particle at a point.
pub struct SetDef<Pnt> {
    pub point: Pnt,
    pub properties: SetProperties,
}

pub type SetCommand = SetDef<Point>;

pub type SetCtx = SetDef<PointCtx>;

pub type SetVar = SetDef<PointVar>;

impl ToResolved<SetCtx> for SetVar {
    /// Resolves against a scope with no variables whose working point is the root.
    fn collapse(self) -> (r: Result<SetCtx, MsgErr>)
        ensures
            match var_resolved(self.point@, no_vars()) {
                Some(m) => r matches Ok(x) && x.point@ == m && x.properties == self.properties,
                None => r is Err,
            },
    {
        let env = Env::no_point();
        proof {
            assert(scope_vars(env) =~= no_vars());
        }
        self.to_resolved(&env)
    }

    fn to_resolved(self, env: &Env) -> (r: Result<SetCtx, MsgErr>)
        ensures
            match var_resolved(self.point@, scope_vars(*env)) {
                Some(m) => r matches Ok(x) && x.point@ == m && x.properties == self.properties,
                None => r is Err,
            },
    {
        let SetDef { point, properties } = self;
        let point = resolve_point_var(point, env)?;
        Ok(SetDef { point, properties })
    }
}

impl ToResolved<SetCommand> for SetCtx {
    /// Resolves against a scope with no variables whose working point is the root.
    fn collapse(self) -> (r: Result<SetCommand, MsgErr>)
        ensures
            match ctx_resolved(self.point@, root_model()) {
                Some(m) => r matches Ok(x) && x.point@ == m && x.properties == self.properties,
                None => r is Err,
            },
    {
        let env = Env::no_point();
        proof {
            assert(env.point@ == root_model());
        }
        self.to_resolved(&env)
    }

    fn to_resolved(self, env: &Env) -> (r: Result<SetCommand, MsgErr>)
        ensures
            match ctx_resolved(self.point@, env.point@) {
                Some(m) => r matches Ok(x) && x.point@ == m && x.properties == self.properties,
                None => r is Err,
            },
    {
        let SetDef { point, properties } = self;
        let point = resolve_point_ctx(point, env)?;
        Ok(SetDef { point, properties })
    }
}

/// What a get command reads: the state, or some properties.
#[derive(Debug, PartialEq, Eq)]
pub enum GetOp {
    State,
    Properties(Vec<String>),
}

/// Gets the state or properties of the particle at a point.
pub struct GetDef<Pnt> {
    pub point: Pnt,
    pub op: GetOp,
}

pub type Get = GetDef<Point>;

pub type GetCtx = GetDef<PointCtx>;

pub type GetVar = GetDef<PointVar>;

impl ToResolved<GetCtx> for GetVar {
    /// Resolves against a scope with no variables whose working point is the root.
    fn collapse(self) -> (r: Result<GetCtx, MsgErr>)
        ensures
            match var_resolved(self.point@, no_vars()) {
                Some(m) => r matches Ok(x) && x.point@ == m && x.op == self.op,
                None => r is Err,
            },
    {
        let env = Env::no_point();
        proof {
            assert(scope_vars(env) =~= no_vars());
        }
        self.to_resolved(&env)
    }

    fn to_resolved(self, env: &Env) -> (r: Result<GetCtx, MsgErr>)
        ensures
            match var_resolved(self.point@, scope_vars(*env)) {
                Some(m) => r matches Ok(x) && x.point@ == m && x.op == self.op,
                None => r is Err,
            },
    {
        let GetDef { point, op } = self;
        let point = resolve_point_var(point, env)?;
        Ok(GetDef { point, op })
    }
}

impl ToResolved<Get> for GetCtx {
    /// Resolves against a scope with no variables whose working point is the root.
    fn collapse(self) -> (r: Result<Get, MsgErr>)
        ensures
            match ctx_resolved(self.point@, root_model()) {
                Some(m) => r matches Ok(x) && x.point@ == m && x.op == self.op,
                None => r is Err,
            },
    {
        let env = Env::no_point();
        proof {
            assert(env.point@ == root_model());
        }
        self.to_resolved(&env)
    }

    fn to_resolved(self, env: &Env) -> (r: Result<Get, MsgErr>)
        ensures
            match ctx_resolved(self.point@, env.point@) {
                Some(m) => r matches Ok(x) && x.point@ == m && x.op == self.op,
                None => r is Err,
            },
    {
        let GetDef { point, op } = self;
        let point = resolve_point_ctx(point, env)?;
        Ok(GetDef { point, op })
    }
}

/// Updates the particle at a point with a payload.
pub struct UpdateDef<Pnt> {
    pub point: Pnt,
    pub payload: Substance,
}

pub type Update = UpdateDef<Point>;

pub type UpdateCtx = UpdateDef<PointCtx>;

pub type UpdateVar = UpdateDef<PointVar>;

impl ToResolved<UpdateCtx> for UpdateVar {
    /// Resolves against a scope with no variables whose working point is the root.
    fn collapse(self) -> (r: Result<UpdateCtx, MsgErr>)
        ensures
            match var_resolved(self.point@, no_vars()) {
                Some(m) => r matches Ok(x) && x.point@ == m && x.payload == self.payload,
                None => r is Err,
            },
    {
        let env = Env::no_point();
        proof {
            assert(scope_vars(env) =~= no_vars());
        }
        self.to_resolved(&env)
    }

    fn to_resolved(self, env: &Env) -> (r: Result<UpdateCtx, MsgErr>)
        ensures
            match var_resolved(self.point@, scope_vars(*env)) {
                Some(m) => r matches Ok(x) && x.point@ == m && x.payload == self.payload,
                None => r is Err,
            },
    {
        let UpdateDef { point, payload } = self;
        let point = resolve_point_var(point, env)?;
        Ok(UpdateDef { point, payload })
    }
}

impl ToResolved<Update> for UpdateCtx {
    /// Resolves against a scope with no variables whose working point is the root.
    fn collapse(self) -> (r: Result<Update, MsgErr>)
        ensures
            match ctx_resolved(self.point@, root_model()) {
                Some(m) => r matches Ok(x) && x.point@ == m && x.payload == self.payload,
                None => r is Err,
            },
    {
        let env = Env::no_point();
        proof {
            assert(env.point@ == root_model());
        }
        self.to_resolved(&env)
    }

    fn to_resolved(self, env: &Env) -> (r: Result<Update, MsgErr>)
        ensures
            match ctx_resolved(self.point@, env.point@) {
                Some(m) => r matches Ok(x) && x.point@ == m && x.payload == self.payload,
                None => r is Err,
            },
    {
        let UpdateDef { point, payload } = self;
        let point = resolve_point_ctx(point, env)?;
        Ok(UpdateDef { point, payload })
    }
}

/// Reads the particle at a point.
pub struct ReadDef<Pnt> {
    pub point: Pnt,
    pub payload: Substance,
}

pub type Read = ReadDef<Point>;

pub type ReadCtx = ReadDef<PointCtx>;

pub type ReadVar = ReadDef<PointVar>;

impl ToResolved<ReadCtx> for ReadVar {
    /// Resolves against a scope with no variables whose working point is the root.
    fn collapse(self) -> (r: Result<ReadCtx, MsgErr>)
        ensures
            match var_resolved(self.point@, no_vars()) {
                Some(m) => r matches Ok(x) && x.point@ == m && x.payload == self.payload,
                None => r is Err,
            },
    {
        let env = Env::no_point();
        proof {
            assert(scope_vars(env) =~= no_vars());
        }
        self.to_resolved(&env)
    }

    fn to_resolved(self, env: &Env) -> (r: Result<ReadCtx, MsgErr>)
        ensures
            match var_resolved(self.point@, scope_vars(*env)) {
                Some(m) => r matches Ok(x) && x.point@ == m && x.payload == self.payload,
                None => r is Err,
            },
    {
        let ReadDef { point, payload } = self;
        let point = resolve_point_var(point, env)?;
        Ok(ReadDef { point, payload })
    }
}

impl ToResolved<Read> for ReadCtx {
    /// Resolves against a scope with no variables whose working point is the root.
    fn collapse(self) -> (r: Result<Read, MsgErr>)
        ensures
            match ctx_resolved(self.point@, root_model()) {
                Some(m) => r matches Ok(x) && x.point@ == m && x.payload == self.payload,
                None => r is Err,
            },
    {
        let env = Env::no_point();
        proof {
            assert(env.point@ == root_model());
        }
        self.to_resolved(&env)
    }

    fn to_resolved(self, env: &Env) -> (r: Result<Read, MsgErr>)
        ensures
            match ctx_resolved(self.point@, env.point@) {
                Some(m) => r matches Ok(x) && x.point@ == m && x.payload == self.payload,
                None => r is Err,
            },
    {
        let ReadDef { point, payload } = self;
        let point = resolve_point_ctx(point, env)?;
        Ok(ReadDef { point, payload })
    }
}

/// What a creation requires first: a file or an authorization.
#[derive(Debug, PartialEq, Eq)]
pub enum Require {
    File(String),
    Auth(String),
}

/// What fulfils a requirement.
#[derive(Debug, PartialEq, Eq)]
pub enum Fulfillment {
    File { name: String, content: Vec<u8> },
    Complete,
}

/// What a creation does where the particle exists already.
#[derive(Debug, Clone, Copy, PartialEq, Eq, Structural)]
pub enum Strategy {
    Commit,
    Ensure,
    Override,
}

/// How the last segment of a new particle's point is made: exactly, or from a pattern with a
/// `%` in it.
#[derive(Debug, PartialEq, Eq)]
pub enum PointSegTemplate {
    Exact(String),
    Pattern(String),
}

/// Where a new particle goes: under a parent, with a template for its own segment.
pub struct PointTemplateDef<Pnt> {
    pub parent: Pnt,
    pub child_segment_template: PointSegTemplate,
}

pub type PointTemplate = PointTemplateDef<Point>;

pub type PointTemplateCtx = PointTemplateDef<PointCtx>;

pub type PointTemplateVar = PointTemplateDef<PointVar>;

/// Whether a text begins with `%`.
pub open spec fn starts_wild(t: Seq<char>) -> bool {
    t.len() > 0 && t[0] == '%'
}

/// What is left after a point template whose point is followed by `rest`.
pub open spec fn template_rest(rest: Seq<char>) -> Seq<char> {
    if starts_wild(rest) {
        rest.drop_first()
    } else {
        rest
    }
}

/// The `%` a point template's child segment gets, where its point is followed by one.
pub open spec fn template_mark(rest: Seq<char>) -> Seq<char> {
    if starts_wild(rest) {
        seq!['%']
    } else {
        Seq::empty()
    }
}

/// A point template at the start of `input`: a point, with variables and context references,
/// and an optional `%` after it. The template's parent is the point without its last segment,
/// and its child segment is the text of that segment, with the `%` where there is one. A point
/// that does not read is the point error; a root is refused, as no template can be made of it.
pub fn point_template(input: &str) -> (r: Result<(String, PointTemplateVar), MsgErr>)
    ensures
        match point_var_at(input@) {
            None => r matches Err(e) && is_point_error(e, input@),
            Some((m, e)) => {
                let rest = input@.subrange(e, input@.len() as int);
                if m.segments.len() == 0 {
                    r matches Err(x) && x matches MsgErr::ParseErrs(p) && is_err_report(
                        p,
                        0,
                        err_report_of("point-template-cannot-be-root"@, input@),
                    )
                } else {
                    r matches Ok((t, pt)) && pt.parent@ == (PointModel {
                        route: m.route,
                        segments: m.segments.drop_last(),
                    }) && t@ == template_rest(rest) && (pt.child_segment_template matches PointSegTemplate::Exact(
                        c,
                    ) && c@ == seg_text(m.segments.last()) + template_mark(rest))
                }
            },
        },
{
    let (rest, point) = point_var(input)?;
    let cs = chars_of(rest.as_str());
    let wild = cs.len() > 0 && cs[0] == '%';
    let next = if wild {
        string_of(&cs, 1, cs.len())
    } else {
        rest
    };
    proof {
        if wild {
            assert(next@ =~= cs@.drop_first());
        }
    }
    if point.segments.len() == 0 {
        return Err(
            create_err_report("point-template-cannot-be-root", 0, input, input.to_string()),
        );
    }
    let n = point.segments.len();
    let child = point.segments[n - 1].to_string();
    assert(point@.segments.last() == point.segments@[n - 1]@);
    let parent = point.parent().unwrap();
    let child = if wild {
        let mut c = child;
        push_char(&mut c, '%');
        c
    } else {
        child
    };
    proof {
        assert(parent@.segments =~= point@.segments.drop_last());
        if !wild {
            assert(child@ =~= seg_text(point@.segments.last()) + Seq::<char>::empty());
        }
    }
    Ok((next, PointTemplateDef { parent, child_segment_template: PointSegTemplate::Exact(child) }))
}

/// The kind of a new particle, with a pattern for its specific.
pub struct KindTemplate {
    pub base: BaseKind,
    pub sub: Option<CamelCase>,
    pub specific: Option<SpecificSelector>,
}

impl KindTemplate {
    /// The kind a template stands for after resolution: a bundle.
    pub fn bundle() -> (r: Self)
        ensures
            r.base == BaseKind::Bundle,
            r.sub is None,
            r.specific is None,
    {
        KindTemplate { base: BaseKind::Bundle, sub: None, specific: None }
    }
}

/// A template for a new particle: where it goes and its kind.
pub struct TemplateDef<Pnt> {
    pub point: Pnt,
    pub kind: KindTemplate,
}

pub type Template = TemplateDef<PointTemplate>;

pub type TemplateCtx = TemplateDef<PointTemplateCtx>;

pub type TemplateVar = TemplateDef<PointTemplateVar>;

impl TemplateDef<PointTemplate> {
    pub fn new(point: PointTemplate, kind: KindTemplate) -> (r: Self)
        ensures
            r.point == point,
            r.kind == kind,
    {
        Self { point, kind }
    }
}

/// A template resolves its parent point; the kind it comes out with is a bundle's.
pub open spec fn template_ok<P>(t: TemplateDef<PointTemplateDef<P>>) -> bool {
    t.kind.base == BaseKind::Bundle && t.kind.sub is None && t.kind.specific is None
}

fn resolve_template_var(t: TemplateVar, env: &Env) -> (r: Result<TemplateCtx, MsgErr>)
    ensures
        match var_resolved(t.point.parent@, scope_vars(*env)) {
            Some(m) => r matches Ok(x) && x.point.parent@ == m && x.point.child_segment_template
                == t.point.child_segment_template && template_ok(x),
            None => r is Err,
        },
{
    let TemplateDef { point, kind: _ } = t;
    let PointTemplateDef { parent, child_segment_template } = point;
    let parent = resolve_point_var(parent, env)?;
    Ok(
        TemplateDef {
            point: PointTemplateDef { parent, child_segment_template },
            kind: KindTemplate::bundle(),
        },
    )
}

fn resolve_template_ctx(t: TemplateCtx, env: &Env) -> (r: Result<Template, MsgErr>)
    ensures
        match ctx_resolved(t.point.parent@, env.point@) {
            Some(m) => r matches Ok(x) && x.point.parent@ == m && x.point.child_segment_template
                == t.point.child_segment_template && template_ok(x),
            None => r is Err,
        },
{
    let TemplateDef { point, kind: _ } = t;
    let PointTemplateDef { parent, child_segment_template } = point;
    let parent = resolve_point_ctx(parent, env)?;
    Ok(
        TemplateDef {
            point: PointTemplateDef { parent, child_segment_template },
            kind: KindTemplate::bundle(),
        },
    )
}

/// A creation: the template, properties, strategy, registry labels and initial state.
pub struct CreateDef<Pnt, State> {
    pub template: TemplateDef<PointTemplateDef<Pnt>>,
    pub properties: SetProperties,
    pub strategy: Strategy,
    pub registry: SetRegistry,
    pub state: State,
}

pub type Create = CreateDef<Point, StateSrc>;

pub type CreateVar = CreateDef<PointVar, StateSrcVar>;

pub type CreateCtx = CreateDef<PointCtx, StateSrc>;

/// The state a state source resolves to in a scope: a file's bytes, found by its name or by
/// the value of a variable; `None` where the file or the variable is missing.
pub open spec fn state_resolved(s: StateSrcVar, env: Env) -> Option<Option<Seq<u8>>> {
    match s {
        StateSrcVar::Nothing => Some(None),
        StateSrcVar::FileRef(name) => match env.file_of(name@) {
            Some(c) => Some(Some(c)),
            None => None,
        },
        StateSrcVar::Var(v) => match env.var(v.name@) {
            Some(val) => match env.file_of(val) {
                Some(c) => Some(Some(c)),
                None => None,
            },
            None => None,
        },
    }
}

/// A state holds the bytes `c`, or nothing.
pub open spec fn state_is(s: StateSrc, c: Option<Seq<u8>>) -> bool {
    match c {
        None => s is Nothing,
        Some(bytes) => s matches StateSrc::Substance(b) && (*b matches Substance::Bin(x) && x@
            == bytes),
    }
}

/// The message of the error for a file or variable `name` that a scope could not give.
pub open spec fn file_error_message(e: ResolverErr, what: Seq<char>, name: Seq<char>) -> Seq<
    char,
> {
    match e {
        ResolverErr::NotAvailable => what + " are not available in this context"@,
        ResolverErr::NotFound => "cannot find "@ + what + " '"@ + name + "'"@,
    }
}

fn file_error(e: ResolverErr, what: &str, name: &String) -> (r: MsgErr)
    ensures
        r.is_status(500, file_error_message(e, what@, name@)),
{
    match e {
        ResolverErr::NotAvailable => {
            let mut m = String::new();
            push_str(&mut m, what);
            push_str(&mut m, " are not available in this context");
            assert(m@ =~= file_error_message(e, what@, name@));
            MsgErr::from_500(m.as_str())
        },
        ResolverErr::NotFound => {
            let mut m = String::new();
            push_str(&mut m, "cannot find ");
            push_str(&mut m, what);
            push_str(&mut m, " '");
            push_str(&mut m, name.as_str());
            push_str(&mut m, "'");
            assert(m@ =~= file_error_message(e, what@, name@));
            MsgErr::from_500(m.as_str())
        },
    }
}

fn resolve_state(s: &StateSrcVar, env: &Env) -> (r: Result<StateSrc, MsgErr>)
    ensures
        match state_resolved(*s, *env) {
            Some(c) => r matches Ok(x) && state_is(x, c),
            None => r is Err,
        },
{
    match s {
        StateSrcVar::Nothing => Ok(StateSrc::Nothing),
        StateSrcVar::FileRef(name) => match env.file(name.as_str()) {
            Ok(f) => Ok(StateSrc::Substance(Box::new(Substance::Bin(f.content)))),
            Err(e) => Err(file_error(e, "file", name)),
        },
        StateSrcVar::Var(var) => match env.val(var.name.as_str()) {
            Ok(val) => match env.file(val.as_str()) {
                Ok(f) => Ok(StateSrc::Substance(Box::new(Substance::Bin(f.content)))),
                Err(e) => Err(file_error(e, "file", &val)),
            },
            Err(e) => Err(file_error(e, "variable", &var.name)),
        },
    }
}

impl CreateDef<PointVar, StateSrcVar> {
    /// Resolves the template's parent and the state source against `env`.
    pub fn to_resolved(self, env: &Env) -> (r: Result<CreateCtx, MsgErr>)
        ensures
            match (
                var_resolved(self.template.point.parent@, scope_vars(*env)),
                state_resolved(self.state, *env),
            ) {
                (Some(m), Some(c)) => r matches Ok(x) && x.template.point.parent@ == m
                    && x.template.point.child_segment_template
                    == self.template.point.child_segment_template && template_ok(x.template)
                    && x.properties == self.properties && x.strategy == self.strategy
                    && x.registry == self.registry && state_is(x.state, c),
                _ => r is Err,
            },
    {
        let CreateDef { template, properties, strategy, registry, state } = self;
        let template = resolve_template_var(template, env)?;
        let state = resolve_state(&state, env)?;
        Ok(CreateDef { template, properties, strategy, registry, state })
    }
}

impl CreateDef<PointCtx, StateSrc> {
    /// Resolves the template's parent against `env`.
    pub fn to_resolved(self, env: &Env) -> (r: Result<Create, MsgErr>)
        ensures
            match ctx_resolved(self.template.point.parent@, env.point@) {
                Some(m) => r matches Ok(x) && x.template.point.parent@ == m
                    && x.template.point.child_segment_template
                    == self.template.point.child_segment_template && template_ok(x.template)
                    && x.properties == self.properties && x.strategy == self.strategy
                    && x.registry == self.registry && x.state == self.state,
                None => r is Err,
            },
    {
        let CreateDef { template, properties, strategy, registry, state } = self;
        let template = resolve_template_ctx(template, env)?;
        Ok(CreateDef { template, properties, strategy, registry, state })
    }
}

impl CreateDef<Point, StateSrc> {
    /// The creation with its state given as bytes.
    pub fn fulfillment(self, bin: Vec<u8>) -> (r: Create)
        ensures
            r.template == self.template,
            r.properties == self.properties,
            r.strategy == self.strategy,
            r.registry == self.registry,
            state_is(r.state, Some(bin@)),
    {
        let CreateDef { template, properties, strategy, registry, state: _ } = self;
        CreateDef {
            template,
            state: StateSrc::Substance(Box::new(Substance::Bin(bin))),
            properties,
            strategy,
            registry,
        }
    }
}

/// What a selection comes back as: stubs or points.
#[derive(Debug, Clone, Copy, PartialEq, Eq, Structural)]
pub enum SelectIntoSubstance {
    Stubs,
    Points,
}

/// A query about the hierarchy of points.
#[derive(Debug, Clone, Copy, PartialEq, Eq, Structural)]
pub enum Query {
    PointHierarchy,
}

} // verus!
