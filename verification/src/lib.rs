pub mod frame;
pub mod screen;

use vstd::prelude::*;

verus! {

/// The content accepted by a draw call: either a run of characters or a
/// single character. A single character places a run of length one.
pub enum VecOrChar {
    Run(Vec<char>),
    Single(char),
}

impl VecOrChar {
    /// The sequence of characters this content stands for.
    pub open spec fn chars(self) -> Seq<char> {
        match self {
            VecOrChar::Run(v) => v@,
            VecOrChar::Single(c) => seq![c],
        }
    }

    /// How many characters this content places.
    pub fn len(&self) -> (n: usize)
        ensures
            n == self.chars().len(),
    {
        match self {
            VecOrChar::Run(v) => v.len(),
            VecOrChar::Single(_) => 1,
        }
    }
}

/// A type that can be turned into draw content: implemented for `&str`,
/// `String`, and `char`, so the draw calls accept any of them.
pub trait VecChar: Sized {
    /// The sequence of characters the value stands for.
    spec fn chars_spec(self) -> Seq<char>;

    /// Turn the value into draw content holding exactly those characters.
    fn vec_char(self) -> (r: VecOrChar)
        ensures
            r.chars() == self.chars_spec(),
    ;
}

/// Collect the characters of a string slice, in order, into a vector.
fn collect_chars(s: &str) -> (v: Vec<char>)
    ensures
        v@ == s@,
{
    let mut v: Vec<char> = Vec::new();
    for c in it: s.chars()
        invariant
            it.seq() == s@,
            v@ == s@.take(it.index() as int),
    {
        v.push(c);
    }
    proof {
        assert(s@.take(s@.len() as int) =~= s@);
    }
    v
}

impl VecChar for &str {
    open spec fn chars_spec(self) -> Seq<char> {
        self@
    }

    fn vec_char(self) -> (r: VecOrChar) {
        VecOrChar::Run(collect_chars(self))
    }
}

impl VecChar for String {
    open spec fn chars_spec(self) -> Seq<char> {
        self@
    }

    fn vec_char(self) -> (r: VecOrChar) {
        VecOrChar::Run(collect_chars(self.as_str()))
    }
}

impl VecChar for char {
    open spec fn chars_spec(self) -> Seq<char> {
        seq![self]
    }

    fn vec_char(self) -> (r: VecOrChar) {
        VecOrChar::Single(self)
    }
}

} // verus!
