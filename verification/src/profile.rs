//! A minimal value type holding one biography string.

use vstd::prelude::*;

verus! {

/// A profile: a single biography string, stored verbatim and never mutated.
#[derive(Debug)]
pub struct Profile {
    bio: String,
}

impl View for Profile {
    type V = Seq<char>;

    closed spec fn view(&self) -> Seq<char> {
        self.bio@
    }
}

impl Profile {
    /// Stores the given biography verbatim; the empty string is legal.
    pub fn new(bio: &str) -> (r: Self)
        ensures
            r@ == bio@,
    {
        Profile { bio: bio.to_owned() }
    }

    /// The stored biography.
    pub fn bio(&self) -> (r: &str)
        ensures
            r@ == self@,
    {
        self.bio.as_str()
    }
}

} // verus!
