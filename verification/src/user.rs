//! A user with a name, an age, and at most one attached profile, together
//! with the derivation of its textual summary.

use vstd::prelude::*;
use crate::decimal::append_decimal;
use crate::decimal::spec_decimal;
use crate::profile::Profile;

verus! {

/// The mathematical content of a `User`: its fields as plain values.
pub ghost struct UserView {
    pub name: Seq<char>,
    pub age: u8,
    pub profile: Option<Seq<char>>,
}

/// A user record: identity fields and an optional, exclusively owned profile.
#[derive(Debug)]
pub struct User {
    name: String,
    age: u8,
    profile: Option<Profile>,
}

impl View for User {
    type V = UserView;

    closed spec fn view(&self) -> UserView {
        UserView {
            name: self.name@,
            age: self.age,
            profile: match self.profile {
                Option::Some(p) => Option::Some(p@),
                Option::None => Option::None,
            },
        }
    }
}

/// The view after a profile with the given biography is attached: the
/// biography fills the profile slot and every other field is unchanged.
pub open spec fn spec_attach(u: UserView, bio: Seq<char>) -> UserView {
    UserView { profile: Option::Some(bio), ..u }
}

/// The summary line derived from a user's fields: the name and the decimal
/// age, then either the fixed closing text (no profile) or the biography.
pub open spec fn spec_summary(u: UserView) -> Seq<char> {
    match u.profile {
        Option::None => u.name + " ("@ + spec_decimal(u.age as nat) + " years old)"@,
        Option::Some(bio) => u.name + " ("@ + spec_decimal(u.age as nat) + ") - "@ + bio,
    }
}

impl User {
    /// Stores `name` and `age` verbatim, with no profile attached. Every
    /// name is legal, and every age the type can hold.
    pub fn new(name: &str, age: u8) -> (r: Self)
        ensures
            r@.name == name@,
            r@.age == age,
            r@.profile is None,
    {
        User { name: name.to_owned(), age, profile: None }
    }

    /// Consumes the user and returns it with `profile` attached, replacing
    /// any profile attached before.
    pub fn with_profile(self, profile: Profile) -> (r: Self)
        ensures
            r@ == spec_attach(self@, profile@),
    {
        let mut u = self;
        u.profile = Some(profile);
        u
    }

    /// Derives the summary line; no field is changed.
    pub fn summary(&self) -> (r: String)
        ensures
            r@ == spec_summary(self@),
    {
        let mut s = self.name.clone();
        s.append(" (");
        append_decimal(&mut s, self.age);
        match &self.profile {
            None => {
                s.append(" years old)");
                proof {
                    assert(self@.profile is None);
                    assert(s@ =~= spec_summary(self@));
                }
            },
            Some(p) => {
                s.append(") - ");
                s.append(p.bio());
                proof {
                    assert(self@.profile == Option::Some(p@));
                    assert(s@ =~= spec_summary(self@));
                }
            },
        }
        s
    }
}

/// Without a profile, the summary is exactly the name, an opening bracket,
/// the age in decimal, and the fixed closing text.
pub proof fn lemma_summary_without_profile(name: Seq<char>, age: u8)
    ensures
        spec_summary((UserView { name, age, profile: Option::None })) == name + " ("@
            + spec_decimal(age as nat) + " years old)"@,
{
}

/// With a profile attached, the summary is exactly the name, the age in
/// decimal in brackets, a dash, and the biography — whatever the name, the
/// age and the biography, the empty strings included.
pub proof fn lemma_summary_with_profile(name: Seq<char>, age: u8, bio: Seq<char>)
    ensures
        spec_summary(spec_attach((UserView { name, age, profile: Option::None }), bio)) == name
            + " ("@ + spec_decimal(age as nat) + ") - "@ + bio,
{
}

/// Attaching a second profile replaces the first entirely: the summary after
/// two attachments is the summary after the second alone, and the first
/// biography leaves no trace.
pub proof fn lemma_attach_replaces(u: UserView, first: Seq<char>, second: Seq<char>)
    ensures
        spec_summary(spec_attach(spec_attach(u, first), second)) == spec_summary(
            spec_attach(u, second),
        ),
{
}

} // verus!
