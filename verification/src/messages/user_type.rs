//! What the tags say of a user, in the forms that several views share.
use vstd::prelude::*;
use crate::tags::{tag_value, Tags};
use crate::text::{split, str_cut, str_eq, strs};

verus! {

/// The type of a user.
#[derive(Copy, Clone, Debug, PartialEq, Eq, Structural, PartialOrd, Ord, Hash)]
pub enum UserType {
    /// An administrator of the site.
    Admin,
    /// A moderator of the whole site.
    GlobalMod,
    /// An employee of the site.
    Staff,
    /// A user like any other.
    Normal,
}

impl Default for UserType {
    fn default() -> (r: Self)
        ensures
            r == UserType::Normal,
    {
        UserType::Normal
    }
}

/// The type that the value `s` of the tag `user-type` names.
pub open spec fn user_type_of(s: Seq<char>) -> UserType {
    if s == "admin"@ {
        UserType::Admin
    } else if s == "global_mod"@ {
        UserType::GlobalMod
    } else if s == "staff"@ {
        UserType::Staff
    } else {
        UserType::Normal
    }
}

/// The type of the user that the tags are about.
pub open spec fn tag_user_type(tags: Map<Seq<char>, Seq<char>>) -> UserType {
    match tag_value(tags, "user-type"@) {
        Some(v) => user_type_of(v),
        None => UserType::Normal,
    }
}

/// The items of the list that the tag `key` holds, separated by commas.
pub open spec fn tag_list(tags: Map<Seq<char>, Seq<char>>, key: Seq<char>) -> Seq<Seq<char>> {
    match tag_value(tags, key) {
        Some(v) => split(v, ','),
        None => Seq::empty(),
    }
}

impl UserType {
    /// The type that the value of the tag `user-type` names.
    pub fn parse(input: &str) -> (r: UserType)
        ensures
            r == user_type_of(input@),
    {
        if str_eq(input, "admin") {
            UserType::Admin
        } else if str_eq(input, "global_mod") {
            UserType::GlobalMod
        } else if str_eq(input, "staff") {
            UserType::Staff
        } else {
            UserType::Normal
        }
    }

    /// The type of the user that the tags are about.
    pub fn from_tags(tags: &Tags<'_>) -> (r: UserType)
        ensures
            r == tag_user_type(tags@),
    {
        match tags.get("user-type") {
            Some(v) => UserType::parse(v),
            None => UserType::Normal,
        }
    }
}

/// The items of the list that the tag `key` holds, as pieces of its value.
pub fn list_of<'t>(tags: &'t Tags<'_>, key: &str) -> (r: Vec<&'t str>)
    ensures
        strs(r@) == tag_list(tags@, key@),
{
    match tags.get(key) {
        Some(v) => str_cut(v, ','),
        None => {
            let out: Vec<&'t str> = Vec::new();
            assert(strs(out@) =~= Seq::empty());
            out
        },
    }
}

} // verus!
