//! A record whose only field is a name, moved from owner to owner.
//!
//! `User` is neither `Copy` nor `Clone`: binding it to a new name or
//! passing it by value moves it, and the compiler rejects every later use
//! of the binding it was moved out of.
use vstd::prelude::*;

verus! {

/// A record holding a name.
pub struct User {
    pub name: String,
}

impl User {
    /// Builds a record that stores `name` as it is.
    pub fn new(name: String) -> (r: User)
        ensures
            r.name == name,
    {
        let user = name;
        User { name: user }
    }
}

} // verus!
