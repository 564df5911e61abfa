//! A hand-written optional type, and a record that keeps its name in it.
use vstd::prelude::*;

verus! {

/// Either no value or exactly one value; every consumer matches on both.
pub enum Option<T> {
    Absent,
    Present(T),
}

/// A record whose name may be absent.
pub struct User {
    pub name: Option<String>,
}

/// The text shown for a name: `"nil"` when absent, the name itself when present.
pub open spec fn display_of(name: Option<String>) -> Seq<char> {
    match name {
        Option::Absent => "nil"@,
        Option::Present(data) => data@,
    }
}

impl User {
    /// The text that `get_display_name` returns for this record.
    pub open spec fn display(&self) -> Seq<char> {
        display_of(self.name)
    }

    /// Builds a record from `name`. The name is wrapped in `Present` and that
    /// value is then thrown away: the stored name is always `Absent`, whatever
    /// text is passed in.
    pub fn new(name: String) -> (r: Self)
        ensures
            r.name == Option::<String>::Absent,
    {
        User {
            name: {
                let _discarded = Option::Present(name);
                Option::Absent
            },
        }
    }

    /// Consumes the record and returns its display text: `"nil"` for an
    /// absent name, the stored name otherwise.
    pub fn get_display_name(self) -> (r: String)
        ensures
            r@ == self.display(),
            self.name matches Option::Present(data) ==> r == data,
    {
        match self.name {
            Option::Absent => {
                proof {
                    reveal_strlit("nil");
                }
                "nil".to_owned()
            },
            Option::Present(data) => data,
        }
    }

    /// Consumes the record and reports failure, with its display text as the
    /// error. No input leads to `Ok`.
    pub fn get_user_profile(self) -> (r: Result<Self, String>)
        ensures
            r is Err,
            r matches Err(e) && e@ == self.display(),
    {
        let display_name = self.get_display_name();
        match display_name {
            _ => Err(display_name),
        }
    }
}

/// A record fresh from `User::new` has no name, so asking for its profile
/// fails with the text `"nil"`, whatever name it was built from.
pub proof fn lemma_new_profile_fails_with_nil(u: User)
    requires
        u.name == Option::<String>::Absent,
    ensures
        u.display() == "nil"@,
{
}

} // verus!
