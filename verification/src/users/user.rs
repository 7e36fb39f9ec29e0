use vstd::prelude::*;

verus! {

/// A stored account.
#[derive(Debug, Clone)]
pub struct User {
    pub name: String,
    pub password: String,
    pub email: String,
    pub role: Role,
}

/// What others may see of an account: its name and role.
#[derive(Debug, Clone)]
pub struct UserMin {
    pub name: String,
    pub role: Role,
}

/// The privileges of an account.
#[derive(Debug, Clone, Copy, PartialEq, Eq, Structural)]
pub enum Role {
    Admin,
    Paid,
    Default,
}

/// The role an account gets when none is recorded.
pub fn default_role() -> (r: Role)
    ensures
        r == Role::Default,
{
    Role::Default
}

/// The name under which a role is stored.
pub open spec fn role_name(role: Role) -> Seq<char> {
    match role {
        Role::Admin => "Admin"@,
        Role::Paid => "Paid"@,
        Role::Default => "Default"@,
    }
}

/// The role that a stored name denotes; unknown names denote the default role.
pub open spec fn role_of_name(s: Seq<char>) -> Role {
    if s == "Admin"@ {
        Role::Admin
    } else if s == "Paid"@ {
        Role::Paid
    } else {
        Role::Default
    }
}

impl Role {
    /// Reads a role from its stored name.
    pub fn from(s: String) -> (r: Role)
        ensures
            r == role_of_name(s@),
    {
        if s == String::from_str("Admin") {
            Role::Admin
        } else if s == String::from_str("Paid") {
            Role::Paid
        } else {
            Role::Default
        }
    }

    /// The name under which this role is stored.
    pub fn name(&self) -> (s: String)
        ensures
            s@ == role_name(*self),
    {
        match self {
            Role::Admin => String::from_str("Admin"),
            Role::Paid => String::from_str("Paid"),
            Role::Default => String::from_str("Default"),
        }
    }
}

/// Reading back the name under which a role is stored gives the same role.
pub proof fn lemma_role_name_roundtrip(role: Role)
    ensures
        role_of_name(role_name(role)) == role,
{
    reveal_strlit("Admin");
    reveal_strlit("Paid");
    reveal_strlit("Default");
    assert("Admin"@ != "Paid"@) by {
        assert("Admin"@[0] != "Paid"@[0]);
    }
    assert("Default"@ != "Admin"@) by {
        assert("Default"@[0] != "Admin"@[0]);
    }
    assert("Default"@ != "Paid"@) by {
        assert("Default"@[0] != "Paid"@[0]);
    }
}

} // verus!
