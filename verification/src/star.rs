//! Stars: their keys, how a key prints and parses, and the names their tables get.
use vstd::prelude::*;
use crate::error::MsgErr;
use crate::kinds::StarSub;
use crate::text::{
    in_class, lemma_run_end_exact, char_at, chars_of, decimal, digit_char, has_at, is_alnum, is_at,
    is_digit, is_lower, lemma_len_fits, lemma_run_end, lower, push_char, push_str, run_end, scan,
    starts_at, string_of, u64_to_string, CharClass,
};

verus! {

/// The name and index of a star within its constellation.
pub struct StarHandle {
    pub name: String,
    pub index: u16,
}

impl StarHandle {
    /// The first star of a name.
    pub fn name(name: &str) -> (r: Self)
        ensures
            r.name@ == name@,
            r.index == 0,
    {
        Self { name: name.to_string(), index: 0 }
    }

    pub fn new(name: &str, index: u16) -> (r: Self)
        ensures
            r.name@ == name@,
            r.index == index,
    {
        Self { name: name.to_string(), index }
    }
}

/// The key of a star: its constellation, name and index.
#[derive(Debug, PartialEq, Eq, Hash)]
pub struct StarKey {
    pub constellation: String,
    pub name: String,
    pub index: u16,
}

impl Clone for StarKey {
    fn clone(&self) -> (r: Self)
        ensures
            r == *self,
    {
        StarKey {
            constellation: self.constellation.clone(),
            name: self.name.clone(),
            index: self.index,
        }
    }
}

/// The text of a star key: `STAR::constellation:name[index]`.
pub open spec fn star_key_text(c: Seq<char>, n: Seq<char>, i: u16) -> Seq<char> {
    "STAR::"@ + c + seq![':'] + n + seq!['['] + decimal(i as nat) + seq![']']
}

/// What std's `str::to_lowercase` makes of a text.
pub uninterp spec fn lowercase_of(s: Seq<char>) -> Seq<char>;

/// std's `str::to_lowercase`; the result is the name `lowercase_of` of the text.
#[verifier::external_body]
fn to_lowercase(s: &str) -> (r: String)
    ensures
        r@ == lowercase_of(s@),
{
    s.to_lowercase()
}

/// The text with every `-` replaced by `_`.
pub open spec fn dashes_to_underscores(s: Seq<char>) -> Seq<char> {
    s.map_values(|c: char| if c == '-' { '_' } else { c })
}

fn replace_dashes(s: &str) -> (r: String)
    ensures
        r@ == dashes_to_underscores(s@),
{
    let cs = chars_of(s);
    let mut r = String::new();
    let mut i: usize = 0;
    while i < cs.len()
        invariant
            cs@ == s@,
            i <= cs@.len(),
            r@ == dashes_to_underscores(s@).subrange(0, i as int),
        decreases cs@.len() - i,
    {
        let c = cs[i];
        push_char(
            &mut r,
            if c == '-' {
                '_'
            } else {
                c
            },
        );
        i = i + 1;
        assert(r@ =~= dashes_to_underscores(s@).subrange(0, i as int));
    }
    assert(r@ =~= dashes_to_underscores(s@));
    r
}

/// The name of a star's table.
pub open spec fn sql_name_text(c: Seq<char>, n: Seq<char>, i: u16) -> Seq<char> {
    "star_"@ + dashes_to_underscores(lowercase_of(c)) + seq!['_'] + dashes_to_underscores(
        lowercase_of(n),
    ) + seq!['_'] + decimal(i as nat)
}

/// `lowercase_alphanumeric`: a lowercase ASCII letter, then ASCII letters and digits.
pub open spec fn lower_alnum_ok(s: Seq<char>) -> bool {
    s.len() > 0 && is_lower(s[0]) && forall|i: int| 1 <= i < s.len() ==> is_alnum(#[trigger] s[i])
}

/// The value of a run of decimal digits.
pub open spec fn digits_value(s: Seq<char>) -> nat
    decreases s.len(),
{
    if s.len() == 0 {
        0
    } else {
        digits_value(s.drop_last()) * 10 + digit_value(s.last())
    }
}

pub open spec fn digit_value(c: char) -> nat {
    (c as int - '0' as int) as nat
}

pub proof fn lemma_decimal_digits(n: nat)
    ensures
        digits_value(decimal(n)) == n,
        decimal(n).len() > 0,
        forall|i: int| 0 <= i < decimal(n).len() ==> is_digit(#[trigger] decimal(n)[i]),
    decreases n,
{
    if n >= 10 {
        lemma_decimal_digits(n / 10);
        let d = decimal(n);
        assert(d.drop_last() =~= decimal(n / 10));
        assert(digit_value(digit_char(n % 10)) == n % 10);
        assert(d.last() == digit_char(n % 10));
        assert(n == (n / 10) * 10 + n % 10) by (nonlinear_arith);
        assert(digits_value(d) == digits_value(d.drop_last()) * 10 + digit_value(d.last()));
        assert forall|i: int| 0 <= i < d.len() implies is_digit(#[trigger] d[i]) by {
            if i < d.len() - 1 {
                assert(d[i] == decimal(n / 10)[i]);
            }
        }
    } else {
        assert(digit_value(digit_char(n)) == n);
        assert(decimal(n).drop_last() =~= Seq::<char>::empty());
        assert(digits_value(decimal(n)) == digits_value(decimal(n).drop_last()) * 10 + digit_value(
            decimal(n).last(),
        ));
    }
}

/// The star key that a whole text reads as: `STAR::`, a lowercase alphanumeric constellation,
/// `:`, a lowercase alphanumeric name, and a decimal index in `[...]` that fits in 16 bits.
pub open spec fn star_key_of(s: Seq<char>) -> Option<(Seq<char>, Seq<char>, u16)> {
    let c_end = run_end(s, 6, CharClass::Alnum);
    let n_end = run_end(s, c_end + 1, CharClass::Alnum);
    let d_end = run_end(s, n_end + 1, CharClass::Digit);
    if starts_at(s, 0, "STAR::"@) && 6 < s.len() && is_lower(s[6]) && char_at(s, c_end, ':')
        && c_end + 1 < s.len() && is_lower(s[c_end + 1]) && char_at(s, n_end, '[') && d_end > n_end
        + 1 && char_at(s, d_end, ']') && d_end + 1 == s.len() && digits_value(
        s.subrange(n_end + 1, d_end),
    ) <= u16::MAX {
        Some(
            (
                s.subrange(6, c_end),
                s.subrange(c_end + 1, n_end),
                digits_value(s.subrange(n_end + 1, d_end)) as u16,
            ),
        )
    } else {
        None
    }
}

pub proof fn lemma_digits_monotone(s: Seq<char>, k: int)
    requires
        0 <= k <= s.len(),
    ensures
        digits_value(s.take(k)) <= digits_value(s),
    decreases s.len() - k,
{
    if k < s.len() {
        lemma_digits_monotone(s, k + 1);
        assert(s.take(k + 1).drop_last() =~= s.take(k));
    } else {
        assert(s.take(k) =~= s);
    }
}

fn parse_index(cs: &Vec<char>, from: usize, to: usize) -> (r: Option<u16>)
    requires
        from <= to <= cs@.len(),
        forall|i: int| from <= i < to ==> is_digit(#[trigger] cs@[i]),
    ensures
        match r {
            Some(v) => v == digits_value(cs@.subrange(from as int, to as int)),
            None => digits_value(cs@.subrange(from as int, to as int)) > u16::MAX,
        },
{
    let mut v: u64 = 0;
    let mut i = from;
    while i < to
        invariant
            from <= i <= to <= cs@.len(),
            forall|k: int| from <= k < to ==> is_digit(#[trigger] cs@[k]),
            v == digits_value(cs@.subrange(from as int, i as int)),
            v <= 65535,
        decreases to - i,
    {
        let c = cs[i];
        assert(is_digit(cs@[i as int]));
        let d: u64 = (c as u32 - '0' as u32) as u64;
        assert(cs@.subrange(from as int, i + 1).drop_last() =~= cs@.subrange(from as int, i as int));
        let nv = v * 10 + d;
        if nv > 65535 {
            proof {
                let whole = cs@.subrange(from as int, to as int);
                assert(whole.take(i + 1 - from) =~= cs@.subrange(from as int, i + 1));
                lemma_digits_monotone(whole, i + 1 - from);
            }
            return None;
        }
        v = nv;
        i = i + 1;
    }
    Some(v as u16)
}

impl StarKey {
    /// Reads a whole text as a star key.
    pub fn from_str(s: &str) -> (r: Result<StarKey, MsgErr>)
        ensures
            match star_key_of(s@) {
                Some((c, n, i)) => r matches Ok(k) && k.constellation@ == c && k.name@ == n
                    && k.index == i,
                None => r is Err,
            },
    {
        proof {
            reveal_strlit("STAR::");
        }
        let cs = chars_of(s);
        proof {
            lemma_len_fits(&cs);
        }
        if !(has_at(&cs, 0, "STAR::") && 6 < cs.len() && lower(cs[6])) {
            return Err(MsgErr::from_500("expected a star key"));
        }
        let c_end = scan(&cs, 6, CharClass::Alnum);
        if !(is_at(&cs, c_end, ':') && c_end + 1 < cs.len() && lower(cs[c_end + 1])) {
            return Err(MsgErr::from_500("expected a star key"));
        }
        let n_end = scan(&cs, c_end + 1, CharClass::Alnum);
        if !is_at(&cs, n_end, '[') {
            return Err(MsgErr::from_500("expected a star key"));
        }
        let d_end = scan(&cs, n_end + 1, CharClass::Digit);
        if !(d_end > n_end + 1 && is_at(&cs, d_end, ']') && d_end + 1 == cs.len()) {
            return Err(MsgErr::from_500("expected a star key"));
        }
        proof {
            lemma_run_end(cs@, n_end + 1, CharClass::Digit);
        }
        match parse_index(&cs, n_end + 1, d_end) {
            Some(index) => Ok(
                StarKey {
                    constellation: string_of(&cs, 6, c_end),
                    name: string_of(&cs, c_end + 1, n_end),
                    index,
                },
            ),
            None => Err(MsgErr::from_500("star index does not fit in 16 bits")),
        }
    }
}

impl StarKey {
    pub fn new(constellation: &String, handle: &StarHandle) -> (r: Self)
        ensures
            r.constellation@ == constellation@,
            r.name@ == handle.name@,
            r.index == handle.index,
    {
        Self {
            constellation: constellation.clone(),
            name: handle.name.clone(),
            index: handle.index,
        }
    }

    /// The key of a machine's star.
    pub fn machine(machine_name: String) -> (r: Self)
        ensures
            r.constellation@ == "machine"@,
            r.name@ == machine_name@,
            r.index == 0,
    {
        StarKey::new(&"machine".to_string(), &StarHandle::name(machine_name.as_str()))
    }

    /// The key of the central star.
    pub fn central() -> (r: Self)
        ensures
            r.constellation@ == "central"@,
            r.name@ == "central"@,
            r.index == 0,
    {
        StarKey { constellation: "central".to_string(), name: "central".to_string(), index: 0 }
    }

    pub fn to_string(&self) -> (r: String)
        ensures
            r@ == star_key_text(self.constellation@, self.name@, self.index),
    {
        let mut r = "STAR::".to_string();
        push_str(&mut r, self.constellation.as_str());
        push_char(&mut r, ':');
        push_str(&mut r, self.name.as_str());
        push_char(&mut r, '[');
        let i = u64_to_string(self.index as u64);
        push_str(&mut r, i.as_str());
        push_char(&mut r, ']');
        assert(r@ =~= star_key_text(self.constellation@, self.name@, self.index));
        r
    }

    /// The name of the star's table: lowercased, with dashes as underscores.
    pub fn sql_name(&self) -> (r: String)
        ensures
            r@ == sql_name_text(self.constellation@, self.name@, self.index),
    {
        let mut r = "star_".to_string();
        let c = replace_dashes(to_lowercase(self.constellation.as_str()).as_str());
        push_str(&mut r, c.as_str());
        push_char(&mut r, '_');
        let n = replace_dashes(to_lowercase(self.name.as_str()).as_str());
        push_str(&mut r, n.as_str());
        push_char(&mut r, '_');
        let i = u64_to_string(self.index as u64);
        push_str(&mut r, i.as_str());
        assert(r@ =~= sql_name_text(self.constellation@, self.name@, self.index));
        r
    }

    pub fn to_sql_name(&self) -> (r: String)
        ensures
            r@ == "STAR::"@ + self.constellation@ + seq!['_'] + self.name@ + seq!['_'] + decimal(
                self.index as nat,
            ),
    {
        let mut r = "STAR::".to_string();
        push_str(&mut r, self.constellation.as_str());
        push_char(&mut r, '_');
        push_str(&mut r, self.name.as_str());
        push_char(&mut r, '_');
        let i = u64_to_string(self.index as u64);
        push_str(&mut r, i.as_str());
        assert(r@ =~= "STAR::"@ + self.constellation@ + seq!['_'] + self.name@ + seq!['_']
            + decimal(self.index as nat));
        r
    }
}

/// The star that a whole star text names; it is stored as its stub's key with its kind.
pub struct StarStub {
    pub key: StarKey,
    pub kind: StarSub,
}

impl StarStub {
    pub fn new(key: StarKey, kind: StarSub) -> (r: Self)
        ensures
            r.key == key,
            r.kind == kind,
    {
        Self { key, kind }
    }
}

/// A star key prints as a text that reads back as the same key, where the constellation and
/// the name are lowercase alphanumeric.
pub proof fn law_star_key_roundtrip(c: Seq<char>, n: Seq<char>, i: u16)
    requires
        lower_alnum_ok(c),
        lower_alnum_ok(n),
    ensures
        star_key_of(star_key_text(c, n, i)) == Some((c, n, i)),
{
    reveal_strlit("STAR::");
    let s = star_key_text(c, n, i);
    let d = decimal(i as nat);
    lemma_decimal_digits(i as nat);
    let c_end: int = 6 + c.len() as int;
    let n_end: int = c_end + 1 + n.len() as int;
    let d_end: int = n_end + 1 + d.len() as int;
    assert(s.len() == d_end + 1);
    assert forall|j: int| 0 <= j < c.len() implies s[6 + j] == c[j] by {}
    assert forall|j: int| 0 <= j < n.len() implies s[c_end + 1 + j] == n[j] by {}
    assert forall|j: int| 0 <= j < d.len() implies s[n_end + 1 + j] == d[j] by {}
    assert(s[c_end] == ':');
    assert(s[n_end] == '[');
    assert(s[d_end] == ']');
    assert forall|j: int| 6 <= j < c_end implies in_class(CharClass::Alnum, #[trigger] s[j]) by {
        assert(s[j] == c[j - 6]);
        if j > 6 {
            assert(is_alnum(c[j - 6]));
        }
    }
    lemma_run_end_exact(s, 6, c_end, CharClass::Alnum);
    assert forall|j: int| c_end + 1 <= j < n_end implies in_class(
        CharClass::Alnum,
        #[trigger] s[j],
    ) by {
        assert(s[j] == n[j - c_end - 1]);
        if j > c_end + 1 {
            assert(is_alnum(n[j - c_end - 1]));
        }
    }
    lemma_run_end_exact(s, c_end + 1, n_end, CharClass::Alnum);
    assert forall|j: int| n_end + 1 <= j < d_end implies in_class(
        CharClass::Digit,
        #[trigger] s[j],
    ) by {
        assert(s[j] == d[j - n_end - 1]);
    }
    lemma_run_end_exact(s, n_end + 1, d_end, CharClass::Digit);
    assert(s.subrange(0, 6) =~= "STAR::"@);
    assert(s.subrange(6, c_end) =~= c);
    assert(s.subrange(c_end + 1, n_end) =~= n);
    assert(s.subrange(n_end + 1, d_end) =~= d);
}

} // verus!
