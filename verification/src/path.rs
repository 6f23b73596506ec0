//! Absolute paths: a `/` followed by path characters.
use vstd::prelude::*;
use crate::error::MsgErr;
use crate::kinds::Kind;
use crate::text::{chars_of, filepath_char, is_filepath_char, push_char, push_str, string_of};

verus! {

/// A path: `/` followed by letters, digits, `-`, `.`, `/`, `:` and `_`.
pub open spec fn path_ok(s: Seq<char>) -> bool {
    s.len() > 0 && s[0] == '/' && forall|i: int| 1 <= i < s.len() ==> is_filepath_char(#[trigger] s[i])
}

/// The text after the last `/`.
pub open spec fn last_segment_of(s: Seq<char>) -> Seq<char>
    decreases s.len(),
{
    if s.len() == 0 {
        Seq::empty()
    } else if s.last() == '/' {
        Seq::empty()
    } else {
        last_segment_of(s.drop_last()).push(s.last())
    }
}

/// An absolute path.
#[derive(Debug, PartialEq, Eq, Hash)]
pub struct Path {
    string: String,
}

impl View for Path {
    type V = Seq<char>;

    closed spec fn view(&self) -> Seq<char> {
        self.string@
    }
}

impl Clone for Path {
    fn clone(&self) -> (r: Self)
        ensures
            r == *self,
    {
        proof {
            use_type_invariant(self);
        }
        Path { string: self.string.clone() }
    }
}

impl Path {
    #[verifier::type_invariant]
    spec fn well_formed(&self) -> bool {
        path_ok(self.string@)
    }

    /// Reads a whole text as a path.
    pub fn from_str(s: &str) -> (r: Result<Path, MsgErr>)
        ensures
            r is Ok <==> path_ok(s@),
            r matches Ok(p) ==> p@ == s@,
    {
        let cs = chars_of(s);
        if cs.len() == 0 || cs[0] != '/' {
            return Err(MsgErr::from_500("expected a path starting with '/'"));
        }
        let mut i: usize = 1;
        while i < cs.len()
            invariant
                cs@ == s@,
                1 <= i <= cs@.len(),
                forall|j: int| 1 <= j < i ==> is_filepath_char(#[trigger] cs@[j]),
            decreases cs@.len() - i,
        {
            if !filepath_char(cs[i]) {
                return Err(MsgErr::from_500("unexpected character in path"));
            }
            i = i + 1;
        }
        Ok(Path { string: s.to_string() })
    }

    /// The path of a text, with a leading `/` added where it lacks one.
    pub fn make_absolute(string: &str) -> (r: Result<Self, MsgErr>)
        ensures
            string@.len() > 0 && string@[0] == '/' ==> (r is Ok <==> path_ok(string@)) && (
            r matches Ok(p) ==> p@ == string@),
            !(string@.len() > 0 && string@[0] == '/') ==> (r is Ok <==> path_ok(
                seq!['/'] + string@,
            )) && (r matches Ok(p) ==> p@ == seq!['/'] + string@),
    {
        if string.unicode_len() > 0 && string.get_char(0) == '/' {
            Path::from_str(string)
        } else {
            let mut t = String::new();
            push_char(&mut t, '/');
            push_str(&mut t, string);
            assert(t@ =~= seq!['/'] + string@);
            Path::from_str(t.as_str())
        }
    }

    /// Whether the path starts with `/`; every path does.
    pub fn is_absolute(&self) -> (b: bool)
        ensures
            b,
            path_ok(self@),
    {
        proof {
            use_type_invariant(self);
        }
        self.string.unicode_len() > 0 && self.string.as_str().get_char(0) == '/'
    }

    /// The path with `path` appended, with a `/` between them unless this path ends with one.
    pub fn cat(&self, path: &Path) -> (r: Result<Self, MsgErr>)
        ensures
            r matches Ok(p) && p@ == (if self@.last() == '/' {
                self@ + path@
            } else {
                self@ + seq!['/'] + path@
            }),
    {
        proof {
            use_type_invariant(self);
            use_type_invariant(path);
        }
        let n = self.string.unicode_len();
        let mut t = self.string.clone();
        if self.string.as_str().get_char(n - 1) != '/' {
            push_char(&mut t, '/');
        }
        push_str(&mut t, path.string.as_str());
        proof {
            let want = if self@.last() == '/' {
                self@ + path@
            } else {
                self@ + seq!['/'] + path@
            };
            assert(t@ =~= want);
            assert forall|i: int| 1 <= i < want.len() implies is_filepath_char(
                #[trigger] want[i],
            ) by {
                if i < self@.len() {
                    assert(want[i] == self@[i]);
                } else if self@.last() != '/' && i == self@.len() {
                } else {
                    let k = i - (want.len() - path@.len());
                    assert(want[i] == path@[k]);
                    if k == 0 {
                        assert(path@[0] == '/');
                    }
                }
            }
        }
        Path::from_str(t.as_str())
    }

    /// The text after the last `/`.
    pub fn last_segment(&self) -> (r: Option<String>)
        ensures
            r matches Some(s) && s@ == last_segment_of(self@),
    {
        let cs = chars_of(self.string.as_str());
        let mut i = cs.len();
        assert(cs@.take(i as int) =~= cs@);
        assert(cs@.subrange(i as int, cs@.len() as int) =~= Seq::<char>::empty());
        assert(last_segment_of(self@) =~= last_segment_of(cs@.take(i as int)) + Seq::<char>::empty());
        while i > 0 && cs[i - 1] != '/'
            invariant
                cs@ == self@,
                i <= cs@.len(),
                last_segment_of(self@) == last_segment_of(cs@.take(i as int)) + cs@.subrange(
                    i as int,
                    cs@.len() as int,
                ),
            decreases i,
        {
            proof {
                let t = cs@.take(i as int);
                assert(t.drop_last() =~= cs@.take(i - 1));
                assert(cs@.subrange(i - 1, cs@.len() as int) =~= seq![t.last()] + cs@.subrange(
                    i as int,
                    cs@.len() as int,
                ));
            }
            i = i - 1;
        }
        proof {
            let t = cs@.take(i as int);
            assert(last_segment_of(t) == Seq::<char>::empty());
        }
        let r = string_of(&cs, i, cs.len());
        assert(r@ =~= last_segment_of(self@));
        Some(r)
    }

    /// The parent path as the platform's path rules find it: the text without its last
    /// component, where that is again a path.
    pub fn parent(&self) -> (r: Option<Path>)
        ensures
            r matches Some(p) ==> p@.len() <= self@.len() && p@ == self@.subrange(
                0,
                p@.len() as int,
            ),
    {
        let parent = std_path_parent(self.string.as_str());
        Path::parent_from(parent, self)
    }

    /// The parent path from the text the platform's path rules give for it, where it is again a
    /// path; `None` where they give none or it is not one.
    pub fn parent_from(parent: Option<String>, of: &Path) -> (r: Option<Path>)
        requires
            parent matches Some(t) ==> t@.len() <= of@.len() && t@ == of@.subrange(
                0,
                t@.len() as int,
            ),
        ensures
            match parent {
                Some(t) => match r {
                    Some(p) => path_ok(t@) && p@ == t@,
                    None => !path_ok(t@),
                },
                None => r is None,
            },
    {
        match parent {
            Some(t) => match Path::from_str(t.as_str()) {
                Ok(p) => Some(p),
                Err(_) => None,
            },
            None => None,
        }
    }

    /// The path without its leading `/`.
    pub fn to_relative(&self) -> (r: String)
        ensures
            r@ == self@.drop_first(),
    {
        proof {
            use_type_invariant(self);
        }
        let cs = chars_of(self.string.as_str());
        string_of(&cs, 1, cs.len())
    }

    /// The text of the path, which keeps to the path grammar: `/` and path characters.
    pub fn to_string(&self) -> (r: String)
        ensures
            r@ == self@,
            path_ok(r@),
    {
        proof {
            use_type_invariant(self);
        }
        self.string.clone()
    }
}

/// A particle mounted at a point: a control or a portal.
#[derive(Debug, Clone, Copy, PartialEq, Eq, Structural)]
pub enum MountKind {
    Control,
    Portal,
}

impl MountKind {
    /// The kind of particle a mount makes.
    pub fn kind(&self) -> (r: Kind)
        ensures
            r == (match self {
                MountKind::Control => Kind::Control,
                MountKind::Portal => Kind::Portal,
            }),
    {
        match self {
            MountKind::Control => Kind::Control,
            MountKind::Portal => Kind::Portal,
        }
    }
}

/// The parent of a path by std's `std::path::Path::parent`, as text.
///
/// The contract claims only what std documents of every platform: the parent is the path
/// without its final component, so its text is a prefix of the path's text. Which components
/// the platform finds is not stated.
#[verifier::external_body]
fn std_path_parent(s: &str) -> (r: Option<String>)
    ensures
        r matches Some(t) ==> t@.len() <= s@.len() && t@ == s@.subrange(0, t@.len() as int),
{
    match std::path::Path::new(s).parent() {
        Some(p) => match p.to_str() {
            Some(t) => Some(t.to_string()),
            None => None,
        },
        None => None,
    }
}

} // verus!
