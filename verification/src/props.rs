//! The grammar of property changes and property names, as they stand between braces in a
//! command: `+key=value` sets a property, `!key` unsets one, and changes are separated by `,`;
//! and of the `set` and `get` commands that carry them after a point.
use vstd::prelude::*;
use crate::command::{
    prop_key, GetDef, GetOp, GetVar, PropModel, PropertyMod, SetDef, SetProperties, SetVar,
};
use crate::error::MsgErr;
use crate::parse::{point_var_at, point_var_parse_at};
use crate::point::PointModel;
use crate::text::{
    char_at, chars_of, in_class, is_at, is_multispace, lemma_len_fits, lemma_run_end, run_end,
    scan, string_of, CharClass,
};

verus! {

/// The first position from `i` that holds `c`, or the end of the text.
pub open spec fn find_char(s: Seq<char>, i: int, c: char) -> int
    decreases s.len() - i,
{
    if 0 <= i < s.len() && s[i] != c {
        find_char(s, i + 1, c)
    } else {
        i
    }
}

/// The first position from `i` that holds white space or `,`, or the end of the text.
pub open spec fn plain_end(s: Seq<char>, i: int) -> int
    decreases s.len() - i,
{
    if 0 <= i < s.len() && !is_multispace(s[i]) && s[i] != ',' {
        plain_end(s, i + 1)
    } else {
        i
    }
}

/// A value quoted with `q` at `i`: at least one character other than `q` between two of them;
/// with its text and the position after it.
pub open spec fn quoted_value_at(s: Seq<char>, i: int, q: char) -> Option<(Seq<char>, int)> {
    let e = find_char(s, i + 1, q);
    if char_at(s, i, q) && e > i + 1 && char_at(s, e, q) {
        Some((s.subrange(i + 1, e), e + 1))
    } else {
        None
    }
}

/// A property value at `i`: single quoted, double quoted, or else a run of characters other
/// than white space and `,`; with its text and the position after it.
pub open spec fn value_at(s: Seq<char>, i: int) -> Option<(Seq<char>, int)> {
    match quoted_value_at(s, i, '\'') {
        Some(x) => Some(x),
        None => match quoted_value_at(s, i, '"') {
            Some(x) => Some(x),
            None => if plain_end(s, i) > i {
                Some((s.subrange(i, plain_end(s, i)), plain_end(s, i)))
            } else {
                None
            },
        },
    }
}

/// A property change at `i`: `+key=value` or `!key`, the key being lowercase letters, digits,
/// dashes and dots; with the position after it.
pub open spec fn prop_mod_at(s: Seq<char>, i: int) -> Option<(PropModel, int)> {
    let k = run_end(s, i + 1, CharClass::Domain);
    if char_at(s, i, '+') {
        if k > i + 1 && char_at(s, k, '=') {
            match value_at(s, k + 1) {
                Some((v, e)) => Some(
                    (PropModel::Assign { key: s.subrange(i + 1, k), value: v, lock: false }, e),
                ),
                None => None,
            }
        } else {
            None
        }
    } else if char_at(s, i, '!') && k > i + 1 {
        Some((PropModel::UnSet(s.subrange(i + 1, k)), k))
    } else {
        None
    }
}

/// A property change at `i` with the white space around it; with the position after it.
pub open spec fn prop_item_at(s: Seq<char>, i: int) -> Option<(PropModel, int)> {
    match prop_mod_at(s, run_end(s, i, CharClass::Space)) {
        Some((p, e)) => Some((p, run_end(s, e, CharClass::Space))),
        None => None,
    }
}

/// The changes after the first, each after a `,`, from `j`: the list stops before a `,` that
/// no change follows.
pub open spec fn props_tail(s: Seq<char>, j: int) -> (Seq<PropModel>, int)
    decreases s.len() - j,
{
    if char_at(s, j, ',') {
        match prop_item_at(s, j + 1) {
            Some((p, k)) => if j < k <= s.len() {
                (seq![p] + props_tail(s, k).0, props_tail(s, k).1)
            } else {
                (Seq::empty(), j)
            },
            None => (Seq::empty(), j),
        }
    } else {
        (Seq::empty(), j)
    }
}

/// The property changes at `i`, separated by `,`, and the position after them; none where no
/// change stands there.
pub open spec fn props_at(s: Seq<char>, i: int) -> (Seq<PropModel>, int) {
    match prop_item_at(s, i) {
        Some((p, j)) => (seq![p] + props_tail(s, j).0, props_tail(s, j).1),
        None => (Seq::empty(), i),
    }
}

/// The properties after recording each change in order, a later one replacing an earlier one
/// for the same property.
pub open spec fn props_map(m: Map<Seq<char>, PropModel>, ps: Seq<PropModel>) -> Map<
    Seq<char>,
    PropModel,
>
    decreases ps.len(),
{
    if ps.len() == 0 {
        m
    } else {
        props_map(m.insert(prop_key(ps[0]), ps[0]), ps.drop_first())
    }
}

fn find_char_exec(cs: &Vec<char>, i: usize, c: char) -> (e: usize)
    requires
        i <= cs@.len(),
    ensures
        e == find_char(cs@, i as int, c),
        i <= e <= cs@.len(),
{
    let mut e = i;
    while e < cs.len() && cs[e] != c
        invariant
            i <= e <= cs@.len(),
            find_char(cs@, e as int, c) == find_char(cs@, i as int, c),
        decreases cs@.len() - e,
    {
        e = e + 1;
    }
    e
}

fn plain_end_exec(cs: &Vec<char>, i: usize) -> (e: usize)
    requires
        i <= cs@.len(),
    ensures
        e == plain_end(cs@, i as int),
        i <= e <= cs@.len(),
{
    let mut e = i;
    while e < cs.len() && !crate::text::multispace(cs[e]) && cs[e] != ','
        invariant
            i <= e <= cs@.len(),
            plain_end(cs@, e as int) == plain_end(cs@, i as int),
        decreases cs@.len() - e,
    {
        e = e + 1;
    }
    e
}

fn quoted_value_parse(cs: &Vec<char>, i: usize, q: char) -> (r: Option<(String, usize)>)
    requires
        i <= cs@.len(),
    ensures
        match quoted_value_at(cs@, i as int, q) {
            Some((v, e)) => r matches Some((x, f)) && x@ == v && f == e,
            None => r is None,
        },
        r matches Some((_, f)) ==> i < f <= cs@.len(),
{
    if !(i < cs.len() && cs[i] == q) {
        return None;
    }
    let e = find_char_exec(cs, i + 1, q);
    if e > i + 1 && is_at(cs, e, q) {
        Some((string_of(cs, i + 1, e), e + 1))
    } else {
        None
    }
}

/// A property value at `i`, with the position after it.
pub fn value_parse(cs: &Vec<char>, i: usize) -> (r: Option<(String, usize)>)
    requires
        i <= cs@.len(),
    ensures
        match value_at(cs@, i as int) {
            Some((v, e)) => r matches Some((x, f)) && x@ == v && f == e,
            None => r is None,
        },
        r matches Some((_, f)) ==> i < f <= cs@.len(),
{
    match quoted_value_parse(cs, i, '\'') {
        Some(x) => {
            return Some(x);
        },
        None => {},
    }
    match quoted_value_parse(cs, i, '"') {
        Some(x) => {
            return Some(x);
        },
        None => {},
    }
    let e = plain_end_exec(cs, i);
    if e > i {
        Some((string_of(cs, i, e), e))
    } else {
        None
    }
}

/// A property change at `i`, with the position after it.
pub fn prop_mod_parse(cs: &Vec<char>, i: usize) -> (r: Option<(PropertyMod, usize)>)
    requires
        i <= cs@.len(),
    ensures
        match prop_mod_at(cs@, i as int) {
            Some((p, e)) => r matches Some((x, f)) && x@ == p && f == e,
            None => r is None,
        },
        r matches Some((_, f)) ==> i < f <= cs@.len(),
{
    proof {
        lemma_len_fits(cs);
    }
    if i >= cs.len() {
        return None;
    }
    let k = scan(cs, i + 1, CharClass::Domain);
    if cs[i] == '+' {
        if k > i + 1 && is_at(cs, k, '=') {
            match value_parse(cs, k + 1) {
                Some((v, e)) => Some(
                    (PropertyMod::Assign { key: string_of(cs, i + 1, k), value: v, lock: false }, e),
                ),
                None => None,
            }
        } else {
            None
        }
    } else if cs[i] == '!' && k > i + 1 {
        Some((PropertyMod::UnSet(string_of(cs, i + 1, k)), k))
    } else {
        None
    }
}

fn prop_item_parse(cs: &Vec<char>, i: usize) -> (r: Option<(PropertyMod, usize)>)
    requires
        i <= cs@.len(),
    ensures
        match prop_item_at(cs@, i as int) {
            Some((p, e)) => r matches Some((x, f)) && x@ == p && f == e,
            None => r is None,
        },
        r matches Some((_, f)) ==> i < f <= cs@.len(),
{
    let a = scan(cs, i, CharClass::Space);
    match prop_mod_parse(cs, a) {
        Some((p, e)) => Some((p, scan(cs, e, CharClass::Space))),
        None => None,
    }
}

/// The property changes at `i`, recorded in order, and the position after them.
pub fn props_parse(cs: &Vec<char>, i: usize) -> (r: (SetProperties, usize))
    requires
        i <= cs@.len(),
    ensures
        r.1 == props_at(cs@, i as int).1,
        r.0.map@ == props_map(Map::empty(), props_at(cs@, i as int).0),
        i <= r.1 <= cs@.len(),
{
    proof {
        lemma_len_fits(cs);
    }
    let mut props = SetProperties::new();
    let ghost s = cs@;
    let (first, mut j) = match prop_item_parse(cs, i) {
        Some(x) => x,
        None => {
            return (props, i);
        },
    };
    props.push(first);
    proof {
        let t = props_tail(s, j as int).0;
        assert((seq![first@] + t).drop_first() =~= t);
    }
    while is_at(cs, j, ',')
        invariant
            s == cs@,
            s.len() <= usize::MAX,
            i < j <= s.len(),
            props_at(s, i as int).1 == props_tail(s, j as int).1,
            props_map(Map::empty(), props_at(s, i as int).0) == props_map(
                props.map@,
                props_tail(s, j as int).0,
            ),
        ensures
            i < j <= s.len(),
            props_at(s, i as int).1 == j,
            props_map(Map::empty(), props_at(s, i as int).0) == props.map@,
        decreases s.len() - j,
    {
        match prop_item_parse(cs, j + 1) {
            Some((p, k)) => {
                proof {
                    assert(props_tail(s, j as int).0 == seq![p@] + props_tail(s, k as int).0);
                    assert((seq![p@] + props_tail(s, k as int).0).drop_first() =~= props_tail(
                        s,
                        k as int,
                    ).0);
                }
                props.push(p);
                j = k;
            },
            None => {
                break;
            },
        }
    }
    (props, j)
}

/// The property changes at the start of `input`, recorded in order, and the rest of the text
/// after them.
pub fn set_properties(input: &str) -> (r: (String, SetProperties))
    ensures
        r.0@ == input@.subrange(props_at(input@, 0).1, input@.len() as int),
        r.1.map@ == props_map(Map::empty(), props_at(input@, 0).0),
{
    let cs = chars_of(input);
    let (props, e) = props_parse(&cs, 0);
    (string_of(&cs, e, cs.len()), props)
}

/// A property name at `i` with the white space around it: lowercase letters, digits and
/// dashes; with the position after it.
pub open spec fn name_item_at(s: Seq<char>, i: int) -> Option<(Seq<char>, int)> {
    let a = run_end(s, i, CharClass::Space);
    let e = run_end(s, a, CharClass::Skewer);
    if e > a {
        Some((s.subrange(a, e), run_end(s, e, CharClass::Space)))
    } else {
        None
    }
}

/// The names after the first, each after a `,`, from `j`.
pub open spec fn names_tail(s: Seq<char>, j: int) -> (Seq<Seq<char>>, int)
    decreases s.len() - j,
{
    if char_at(s, j, ',') {
        match name_item_at(s, j + 1) {
            Some((n, k)) => if j < k <= s.len() {
                (seq![n] + names_tail(s, k).0, names_tail(s, k).1)
            } else {
                (Seq::empty(), j)
            },
            None => (Seq::empty(), j),
        }
    } else {
        (Seq::empty(), j)
    }
}

/// The property names at `i`, separated by `,`, and the position after them.
pub open spec fn names_at(s: Seq<char>, i: int) -> (Seq<Seq<char>>, int) {
    match name_item_at(s, i) {
        Some((n, j)) => (seq![n] + names_tail(s, j).0, names_tail(s, j).1),
        None => (Seq::empty(), i),
    }
}

fn name_item_parse(cs: &Vec<char>, i: usize) -> (r: Option<(String, usize)>)
    requires
        i <= cs@.len(),
    ensures
        match name_item_at(cs@, i as int) {
            Some((n, e)) => r matches Some((x, f)) && x@ == n && f == e,
            None => r is None,
        },
        r matches Some((_, f)) ==> i < f <= cs@.len(),
{
    let a = scan(cs, i, CharClass::Space);
    let e = scan(cs, a, CharClass::Skewer);
    if e > a {
        Some((string_of(cs, a, e), scan(cs, e, CharClass::Space)))
    } else {
        None
    }
}

/// The property names at `i`, in order, and the position after them.
pub fn names_parse(cs: &Vec<char>, i: usize) -> (r: (Vec<String>, usize))
    requires
        i <= cs@.len(),
    ensures
        r.1 == names_at(cs@, i as int).1,
        r.0@.map_values(|n: String| n@) == names_at(cs@, i as int).0,
        i <= r.1 <= cs@.len(),
{
    proof {
        lemma_len_fits(cs);
    }
    let mut names: Vec<String> = Vec::new();
    let ghost s = cs@;
    let (first, mut j) = match name_item_parse(cs, i) {
        Some(x) => x,
        None => {
            assert(names@.map_values(|n: String| n@) =~= Seq::<Seq<char>>::empty());
            return (names, i);
        },
    };
    names.push(first);
    proof {
        assert(names@.map_values(|n: String| n@) =~= seq![first@]);
    }
    while is_at(cs, j, ',')
        invariant
            s == cs@,
            s.len() <= usize::MAX,
            i < j <= s.len(),
            names_at(s, i as int).1 == names_tail(s, j as int).1,
            names_at(s, i as int).0 == names@.map_values(|n: String| n@) + names_tail(
                s,
                j as int,
            ).0,
        ensures
            i < j <= s.len(),
            names_at(s, i as int).1 == j,
            names_at(s, i as int).0 == names@.map_values(|n: String| n@),
        decreases s.len() - j,
    {
        match name_item_parse(cs, j + 1) {
            Some((n, k)) => {
                let ghost before = names@.map_values(|n: String| n@);
                names.push(n);
                proof {
                    assert(names@.map_values(|n: String| n@) =~= before.push(n@));
                    assert(before + names_tail(s, j as int).0 =~= before.push(n@) + names_tail(
                        s,
                        k as int,
                    ).0);
                }
                j = k;
            },
            None => {
                proof {
                    assert(names_tail(s, j as int).0 =~= Seq::<Seq<char>>::empty());
                    assert(names@.map_values(|n: String| n@) + Seq::<Seq<char>>::empty()
                        =~= names@.map_values(|n: String| n@));
                }
                break;
            },
        }
    }
    proof {
        assert(names@.map_values(|n: String| n@) + Seq::<Seq<char>>::empty() =~= names@.map_values(
            |n: String| n@,
        ));
    }
    (names, j)
}

/// The property names at the start of `input`, in order, and the rest of the text after them.
pub fn get_properties(input: &str) -> (r: (String, Vec<String>))
    ensures
        r.0@ == input@.subrange(names_at(input@, 0).1, input@.len() as int),
        r.1@.map_values(|n: String| n@) == names_at(input@, 0).0,
{
    let cs = chars_of(input);
    let (names, e) = names_parse(&cs, 0);
    (string_of(&cs, e, cs.len()), names)
}

/// A set command at the start of the text: a point, then the property changes between braces;
/// with the position after it.
pub open spec fn set_at(s: Seq<char>) -> Option<(PointModel, Seq<PropModel>, int)> {
    match point_var_at(s) {
        Some((m, e)) => if char_at(s, e, '{') && char_at(s, props_at(s, e + 1).1, '}') {
            Some((m, props_at(s, e + 1).0, props_at(s, e + 1).1 + 1))
        } else {
            None
        },
        None => None,
    }
}

/// A get command at the start of the text: a point, then optionally the property names between
/// braces; with the position after it.
pub open spec fn get_at(s: Seq<char>) -> Option<(PointModel, Option<Seq<Seq<char>>>, int)> {
    match point_var_at(s) {
        Some((m, e)) => if char_at(s, e, '{') && char_at(s, names_at(s, e + 1).1, '}') {
            Some((m, Some(names_at(s, e + 1).0), names_at(s, e + 1).1 + 1))
        } else {
            Some((m, None, e))
        },
        None => None,
    }
}

/// Reads a set command at the start of `input`, with the rest of the text after it.
pub fn set(input: &str) -> (r: Result<(String, SetVar), MsgErr>)
    ensures
        match set_at(input@) {
            Some((m, ps, e)) => r matches Ok((rest, x)) && x.point@ == m && x.properties.map@
                == props_map(Map::empty(), ps) && rest@ == input@.subrange(e, input@.len() as int),
            None => r is Err,
        },
{
    let cs = chars_of(input);
    proof {
        lemma_len_fits(&cs);
    }
    let (point, e) = match point_var_parse_at(&cs) {
        Some(x) => x,
        None => {
            return Err(MsgErr::from_500("expected a point"));
        },
    };
    if !is_at(&cs, e, '{') {
        return Err(MsgErr::from_500("expected '{'"));
    }
    let (properties, f) = props_parse(&cs, e + 1);
    if !is_at(&cs, f, '}') {
        return Err(MsgErr::from_500("expected '}'"));
    }
    Ok((string_of(&cs, f + 1, cs.len()), SetDef { point, properties }))
}

/// Reads a get command at the start of `input`, with the rest of the text after it: the state
/// of the point, or the properties named between braces.
pub fn get(input: &str) -> (r: Result<(String, GetVar), MsgErr>)
    ensures
        match get_at(input@) {
            Some((m, names, e)) => {
                &&& r matches Ok((rest, x))
                &&& x.point@ == m
                &&& rest@ == input@.subrange(e, input@.len() as int)
                &&& match names {
                    Some(ns) => x.op matches GetOp::Properties(v) && v@.map_values(|n: String| n@)
                        == ns,
                    None => x.op is State,
                }
            },
            None => r is Err,
        },
{
    let cs = chars_of(input);
    proof {
        lemma_len_fits(&cs);
    }
    let (point, e) = match point_var_parse_at(&cs) {
        Some(x) => x,
        None => {
            return Err(MsgErr::from_500("expected a point"));
        },
    };
    if is_at(&cs, e, '{') {
        let (names, f) = names_parse(&cs, e + 1);
        if is_at(&cs, f, '}') {
            let rest = string_of(&cs, f + 1, cs.len());
            return Ok((rest, GetDef { point, op: GetOp::Properties(names) }));
        }
    }
    Ok((string_of(&cs, e, cs.len()), GetDef { point, op: GetOp::State }))
}

} // verus!
