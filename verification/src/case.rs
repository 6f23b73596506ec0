//! Names in camel case, skewer case, and domain names: texts checked against their grammar.
use vstd::prelude::*;
use crate::error::MsgErr;
use crate::text::{
    alnum, chars_of, is_alnum, is_domain_char, is_lower, is_upper, is_var_tail_char, lower, upper,
    var_tail_char, domain_char,
};

verus! {

/// Camel case: an uppercase ASCII letter, then ASCII letters and digits.
pub open spec fn camel_ok(s: Seq<char>) -> bool {
    s.len() > 0 && is_upper(s[0]) && forall|i: int| 1 <= i < s.len() ==> is_alnum(#[trigger] s[i])
}

/// Skewer case: a lowercase ASCII letter, then ASCII letters, digits and dashes.
pub open spec fn skewer_ok(s: Seq<char>) -> bool {
    s.len() > 0 && is_lower(s[0]) && forall|i: int|
        1 <= i < s.len() ==> is_var_tail_char(#[trigger] s[i])
}

/// A domain: one or more lowercase ASCII letters, digits, dashes and dots.
pub open spec fn domain_ok(s: Seq<char>) -> bool {
    s.len() > 0 && forall|i: int| 0 <= i < s.len() ==> is_domain_char(#[trigger] s[i])
}

/// Whether all of `cs` after the first character satisfies the class test.
fn tail_all(cs: &Vec<char>, from: usize, k: u8) -> (b: bool)
    requires
        k < 3,
    ensures
        k == 0 ==> (b == forall|i: int| from <= i < cs@.len() ==> is_alnum(#[trigger] cs@[i])),
        k == 1 ==> (b == forall|i: int| from <= i < cs@.len() ==> is_var_tail_char(#[trigger] cs@[i])),
        k == 2 ==> (b == forall|i: int| from <= i < cs@.len() ==> is_domain_char(#[trigger] cs@[i])),
{
    let mut i = from;
    while i < cs.len()
        invariant
            k < 3,
            from <= i || i == from,
            k == 0 ==> forall|j: int| from <= j < i ==> is_alnum(#[trigger] cs@[j]),
            k == 1 ==> forall|j: int| from <= j < i ==> is_var_tail_char(#[trigger] cs@[j]),
            k == 2 ==> forall|j: int| from <= j < i ==> is_domain_char(#[trigger] cs@[j]),
        decreases cs@.len() - i,
    {
        let c = cs[i];
        let ok = if k == 0 {
            alnum(c)
        } else if k == 1 {
            var_tail_char(c)
        } else {
            domain_char(c)
        };
        if !ok {
            return false;
        }
        i = i + 1;
    }
    true
}

/// A name in camel case.
#[derive(Debug, PartialEq, Eq, Hash)]
pub struct CamelCase {
    string: String,
}

impl View for CamelCase {
    type V = Seq<char>;

    closed spec fn view(&self) -> Seq<char> {
        self.string@
    }
}

impl CamelCase {
    #[verifier::type_invariant]
    spec fn well_formed(&self) -> bool {
        camel_ok(self.string@)
    }

    /// Checks a whole text.
    pub fn from_str(s: &str) -> (r: Result<Self, MsgErr>)
        ensures
            r is Ok <==> camel_ok(s@),
            r matches Ok(x) ==> x@ == s@,
    {
        let cs = chars_of(s);
        if cs.len() > 0 && upper(cs[0]) && tail_all(&cs, 1, 0) {
            Ok(CamelCase { string: s.to_string() })
        } else {
            Err(MsgErr::from_500("expected CamelCase"))
        }
    }

    pub fn as_str(&self) -> (r: &str)
        ensures
            r@ == self@,
            camel_ok(r@),
    {
        proof {
            use_type_invariant(self);
        }
        self.string.as_str()
    }

    pub fn to_string(&self) -> (r: String)
        ensures
            r@ == self@,
    {
        self.string.clone()
    }

    /// Whether two names are the same text.
    pub fn same(&self, other: &Self) -> (b: bool)
        ensures
            b == (self@ == other@),
    {
        self.string == other.string
    }
}

impl Clone for CamelCase {
    fn clone(&self) -> (r: Self)
        ensures
            r == *self,
    {
        proof {
            use_type_invariant(self);
        }
        CamelCase { string: self.string.clone() }
    }
}

/// A name in skewer case.
#[derive(Debug, PartialEq, Eq, Hash)]
pub struct SkewerCase {
    string: String,
}

impl View for SkewerCase {
    type V = Seq<char>;

    closed spec fn view(&self) -> Seq<char> {
        self.string@
    }
}

impl SkewerCase {
    #[verifier::type_invariant]
    spec fn well_formed(&self) -> bool {
        skewer_ok(self.string@)
    }

    /// Checks a whole text.
    pub fn from_str(s: &str) -> (r: Result<Self, MsgErr>)
        ensures
            r is Ok <==> skewer_ok(s@),
            r matches Ok(x) ==> x@ == s@,
    {
        let cs = chars_of(s);
        if cs.len() > 0 && lower(cs[0]) && tail_all(&cs, 1, 1) {
            Ok(SkewerCase { string: s.to_string() })
        } else {
            Err(MsgErr::from_500("expected skewer-case"))
        }
    }

    pub fn as_str(&self) -> (r: &str)
        ensures
            r@ == self@,
            skewer_ok(r@),
    {
        proof {
            use_type_invariant(self);
        }
        self.string.as_str()
    }

    pub fn to_string(&self) -> (r: String)
        ensures
            r@ == self@,
    {
        self.string.clone()
    }

    /// Whether two names are the same text.
    pub fn same(&self, other: &Self) -> (b: bool)
        ensures
            b == (self@ == other@),
    {
        self.string == other.string
    }
}

impl Clone for SkewerCase {
    fn clone(&self) -> (r: Self)
        ensures
            r == *self,
    {
        proof {
            use_type_invariant(self);
        }
        SkewerCase { string: self.string.clone() }
    }
}

/// A domain name.
#[derive(Debug, PartialEq, Eq, Hash)]
pub struct Domain {
    string: String,
}

impl View for Domain {
    type V = Seq<char>;

    closed spec fn view(&self) -> Seq<char> {
        self.string@
    }
}

impl Domain {
    #[verifier::type_invariant]
    spec fn well_formed(&self) -> bool {
        domain_ok(self.string@)
    }

    /// Checks a whole text.
    pub fn from_str(s: &str) -> (r: Result<Self, MsgErr>)
        ensures
            r is Ok <==> domain_ok(s@),
            r matches Ok(x) ==> x@ == s@,
    {
        let cs = chars_of(s);
        if cs.len() > 0 && tail_all(&cs, 0, 2) {
            Ok(Domain { string: s.to_string() })
        } else {
            Err(MsgErr::from_500("expected a domain"))
        }
    }

    pub fn as_str(&self) -> (r: &str)
        ensures
            r@ == self@,
            domain_ok(r@),
    {
        proof {
            use_type_invariant(self);
        }
        self.string.as_str()
    }

    pub fn to_string(&self) -> (r: String)
        ensures
            r@ == self@,
    {
        self.string.clone()
    }

    /// Whether two names are the same text.
    pub fn same(&self, other: &Self) -> (b: bool)
        ensures
            b == (self@ == other@),
    {
        self.string == other.string
    }
}

impl Clone for Domain {
    fn clone(&self) -> (r: Self)
        ensures
            r == *self,
    {
        proof {
            use_type_invariant(self);
        }
        Domain { string: self.string.clone() }
    }
}

} // verus!
