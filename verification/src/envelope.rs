//! The message envelope.

use vstd::prelude::*;

verus! {

/// A message envelope: one identifier, which is a string.
///
/// The envelope is modelled by its identifier, so `p@` is the sequence of
/// characters of `p`'s `id`. Any string is a valid identifier, the empty one
/// included.
#[derive(Debug)]
pub struct Post {
    id: String,
}

impl View for Post {
    type V = Seq<char>;

    closed spec fn view(&self) -> Seq<char> {
        self.id@
    }
}

impl Post {
    /// Wraps an identifier in an envelope.
    pub fn new(id: String) -> (envelope: Post)
        ensures
            envelope@ == id@,
    {
        Post { id }
    }

    /// The identifier that the envelope carries.
    pub fn id(&self) -> (id: &str)
        ensures
            id@ == self@,
    {
        self.id.as_str()
    }

    /// Takes the envelope apart, giving back its identifier.
    pub fn into_id(self) -> (id: String)
        ensures
            id@ == self@,
    {
        self.id
    }
}

} // verus!
