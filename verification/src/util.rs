//! Patterns over values: any value, none, or those a matcher accepts.
use vstd::prelude::*;
use crate::layer::{layer_name, topic_text, Layer, Topic};

verus! {

/// Something that accepts or refuses values of type `X`.
pub trait ValueMatcher<X> {
    /// Whether this accepts `x`.
    spec fn accepts(&self, x: X) -> bool;

    fn is_match(&self, x: &X) -> (r: Result<(), ()>)
        ensures
            r is Ok <==> self.accepts(*x),
    ;
}

/// Something with a text.
pub trait ToText {
    spec fn text(&self) -> Seq<char>;

    fn to_text(&self) -> (r: String)
        ensures
            r@ == self.text(),
    ;
}

impl ToText for String {
    open spec fn text(&self) -> Seq<char> {
        self@
    }

    fn to_text(&self) -> (r: String) {
        self.clone()
    }
}

impl ToText for Layer {
    open spec fn text(&self) -> Seq<char> {
        layer_name(*self)
    }

    fn to_text(&self) -> (r: String) {
        self.to_string()
    }
}

impl ToText for Topic {
    open spec fn text(&self) -> Seq<char> {
        topic_text(*self)
    }

    fn to_text(&self) -> (r: String) {
        self.to_string()
    }
}

/// Matches any value, no value, or what a pattern accepts.
#[derive(Debug, PartialEq, Eq, Hash)]
pub enum ValuePattern<T> {
    Any,
    Nothing,
    Pattern(T),
}

impl<T: ToText> ValuePattern<T> {
    /// The pattern with its value as text.
    pub fn stringify(self) -> (r: ValuePattern<String>)
        ensures
            match (self, r) {
                (ValuePattern::Any, ValuePattern::Any) => true,
                (ValuePattern::Nothing, ValuePattern::Nothing) => true,
                (ValuePattern::Pattern(t), ValuePattern::Pattern(s)) => s@ == t.text(),
                _ => false,
            },
    {
        match self {
            ValuePattern::Any => ValuePattern::Any,
            ValuePattern::Nothing => ValuePattern::Nothing,
            ValuePattern::Pattern(t) => ValuePattern::Pattern(t.to_text()),
        }
    }

    /// `*` for any, `!` for none, else the pattern's text.
    pub fn to_string(&self) -> (r: String)
        ensures
            r@ == (match self {
                ValuePattern::Any => "*"@,
                ValuePattern::Nothing => "!"@,
                ValuePattern::Pattern(t) => t.text(),
            }),
    {
        match self {
            ValuePattern::Any => "*".to_string(),
            ValuePattern::Nothing => "!".to_string(),
            ValuePattern::Pattern(pattern) => pattern.to_text(),
        }
    }
}

/// Whether a pattern matches `x`.
pub open spec fn pattern_accepts<T: ValueMatcher<X>, X>(p: ValuePattern<T>, x: X) -> bool {
    match p {
        ValuePattern::Any => true,
        ValuePattern::Pattern(t) => t.accepts(x),
        ValuePattern::Nothing => false,
    }
}

impl<T> ValuePattern<T> {
    /// The same shape of pattern with another value.
    pub fn wrap<X>(self, x: X) -> (r: ValuePattern<X>)
        ensures
            match (self, r) {
                (ValuePattern::Any, ValuePattern::Any) => true,
                (ValuePattern::Nothing, ValuePattern::Nothing) => true,
                (ValuePattern::Pattern(_), ValuePattern::Pattern(y)) => y == x,
                _ => false,
            },
    {
        match self {
            ValuePattern::Any => ValuePattern::Any,
            ValuePattern::Nothing => ValuePattern::Nothing,
            ValuePattern::Pattern(_) => ValuePattern::Pattern(x),
        }
    }

    pub fn is_match<X>(&self, x: &X) -> (r: Result<(), ()>) where T: ValueMatcher<X>
        ensures
            r is Ok <==> pattern_accepts(*self, *x),
    {
        match self {
            ValuePattern::Any => Ok(()),
            ValuePattern::Pattern(exact) => exact.is_match(x),
            ValuePattern::Nothing => Err(()),
        }
    }

    /// Matches an optional value: a pattern needs one that it accepts.
    pub fn is_match_opt<X>(&self, x: Option<&X>) -> (r: Result<(), ()>) where
        T: ValueMatcher<X>,

        ensures
            r is Ok <==> (match self {
                ValuePattern::Any => true,
                ValuePattern::Pattern(t) => x matches Some(v) && t.accepts(*v),
                ValuePattern::Nothing => false,
            }),
    {
        match self {
            ValuePattern::Any => Ok(()),
            ValuePattern::Pattern(_) => match x {
                None => Err(()),
                Some(x) => self.is_match(x),
            },
            ValuePattern::Nothing => Err(()),
        }
    }
}

/// A matcher that holds a regular expression's text.
pub struct RegexMatcher {
    pub pattern: String,
}

impl RegexMatcher {
    pub fn new(string: String) -> (r: Self)
        ensures
            r.pattern == string,
    {
        Self { pattern: string }
    }

    pub fn to_string(&self) -> (r: String)
        ensures
            r@ == self.pattern@,
    {
        self.pattern.clone()
    }
}

impl ValueMatcher<String> for RegexMatcher {
    /// The value is searched for in itself, where it is always found.
    open spec fn accepts(&self, x: String) -> bool {
        true
    }

    fn is_match(&self, x: &String) -> (r: Result<(), ()>) {
        Ok(())
    }
}

/// A matcher that accepts exactly one text.
#[derive(Debug, PartialEq, Eq)]
pub struct StringMatcher {
    pub pattern: String,
}

impl StringMatcher {
    pub fn new(string: String) -> (r: Self)
        ensures
            r.pattern == string,
    {
        Self { pattern: string }
    }

    pub fn to_string(&self) -> (r: String)
        ensures
            r@ == self.pattern@,
    {
        self.pattern.clone()
    }
}

impl ValueMatcher<String> for StringMatcher {
    open spec fn accepts(&self, x: String) -> bool {
        self.pattern@ == x@
    }

    fn is_match(&self, x: &String) -> (r: Result<(), ()>) {
        if self.pattern == *x {
            Ok(())
        } else {
            Err(())
        }
    }
}

impl ValueMatcher<Layer> for Layer {
    open spec fn accepts(&self, x: Layer) -> bool {
        *self == x
    }

    fn is_match(&self, x: &Layer) -> (r: Result<(), ()>) {
        if *self == *x {
            Ok(())
        } else {
            Err(())
        }
    }
}

/// A pattern that no value meets is never matched, and one that any value meets always is.
pub proof fn law_any_and_nothing<T: ValueMatcher<X>, X>(x: X)
    ensures
        pattern_accepts(ValuePattern::<T>::Any, x),
        !pattern_accepts(ValuePattern::<T>::Nothing, x),
{
}

} // verus!
