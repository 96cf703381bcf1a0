//! User roles and their textual names.

use vstd::prelude::*;
use vstd::string::*;

use crate::text::{str_concat, str_eq};

verus! {

/// The role a user account holds.
#[derive(Debug, Clone, Copy, PartialEq, Eq, Structural)]
pub enum Role {
    Admin,
    SuperAdmin,
    Artist,
    Customer,
    User,
    Staff,
}

/// The snake_case name under which a role is written and read.
pub open spec fn role_name(r: Role) -> Seq<char> {
    match r {
        Role::Admin => "admin"@,
        Role::SuperAdmin => "super_admin"@,
        Role::Artist => "artist"@,
        Role::Customer => "customer"@,
        Role::User => "user"@,
        Role::Staff => "staff"@,
    }
}

/// The role whose name is `s`, if there is one.
pub open spec fn role_named(s: Seq<char>) -> Option<Role> {
    if s == "admin"@ {
        Some(Role::Admin)
    } else if s == "super_admin"@ {
        Some(Role::SuperAdmin)
    } else if s == "artist"@ {
        Some(Role::Artist)
    } else if s == "customer"@ {
        Some(Role::Customer)
    } else if s == "user"@ {
        Some(Role::User)
    } else if s == "staff"@ {
        Some(Role::Staff)
    } else {
        None
    }
}

/// Reads a role from its name; any other text is refused with
/// `Unknown role: <text>`.
pub fn parse_role(s: &str) -> (r: Result<Role, String>)
    ensures
        role_named(s@) matches Some(role) ==> r == Ok::<Role, String>(role),
        role_named(s@) is None ==> (r matches Err(m) && m@ == "Unknown role: "@ + s@),
{
    if str_eq(s, "admin") {
        Ok(Role::Admin)
    } else if str_eq(s, "super_admin") {
        Ok(Role::SuperAdmin)
    } else if str_eq(s, "artist") {
        Ok(Role::Artist)
    } else if str_eq(s, "customer") {
        Ok(Role::Customer)
    } else if str_eq(s, "user") {
        Ok(Role::User)
    } else if str_eq(s, "staff") {
        Ok(Role::Staff)
    } else {
        Err(str_concat("Unknown role: ", s))
    }
}

impl Role {
    /// The role's name, as it is written in tokens and in the database.
    pub fn to_string(&self) -> (s: String)
        ensures
            s@ == role_name(*self),
    {
        match self {
            Role::Admin => String::from_str("admin"),
            Role::SuperAdmin => String::from_str("super_admin"),
            Role::Artist => String::from_str("artist"),
            Role::Customer => String::from_str("customer"),
            Role::User => String::from_str("user"),
            Role::Staff => String::from_str("staff"),
        }
    }
}

impl std::str::FromStr for Role {
    type Err = String;

    fn from_str(s: &str) -> (r: Result<Self, Self::Err>)
        ensures
            role_named(s@) matches Some(role) ==> r == Ok::<Role, String>(role),
            role_named(s@) is None ==> (r matches Err(m) && m@ == "Unknown role: "@ + s@),
    {
        parse_role(s)
    }
}

/// Reading a role's name gives the role back: every role is found under its
/// own name.
pub proof fn lemma_parse_name_roundtrip(r: Role)
    ensures
        role_named(role_name(r)) == Some(r),
{
    reveal_strlit("admin");
    reveal_strlit("super_admin");
    reveal_strlit("artist");
    reveal_strlit("customer");
    reveal_strlit("user");
    reveal_strlit("staff");
    // Only "admin" and "staff" share a length; they differ in their first
    // character.
    assert("admin"@.len() == 5 && "super_admin"@.len() == 11 && "artist"@.len() == 6);
    assert("customer"@.len() == 8 && "user"@.len() == 4 && "staff"@.len() == 5);
    assert("admin"@[0] != "staff"@[0]);
}

/// Distinct roles have distinct names.
pub proof fn lemma_role_name_injective(a: Role, b: Role)
    ensures
        role_name(a) == role_name(b) ==> a == b,
{
    lemma_parse_name_roundtrip(a);
    lemma_parse_name_roundtrip(b);
}

} // verus!
