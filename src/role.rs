use vstd::prelude::*;

verus! {

/// The role a user holds; `Admin` passes every role check that lists it.
#[derive(Clone, Copy, Debug, PartialEq, Eq, Structural)]
pub enum UserRole {
    Admin,
    User,
}

/// The name a role carries inside a token and in stored records.
pub open spec fn role_label(role: UserRole) -> Seq<char> {
    match role {
        UserRole::Admin => seq!['A', 'd', 'm', 'i', 'n'],
        UserRole::User => seq!['U', 's', 'e', 'r'],
    }
}

/// The role whose label is `s`, if any.
pub open spec fn role_from_label(s: Seq<char>) -> Option<UserRole> {
    if s == role_label(UserRole::Admin) {
        Some(UserRole::Admin)
    } else if s == role_label(UserRole::User) {
        Some(UserRole::User)
    } else {
        None
    }
}

/// The role a registration form asks for, from the already lower-cased text:
/// `admin` gives `Admin`; anything else falls back to `User`.
pub open spec fn requested_role(lowered: Seq<char>) -> UserRole {
    if lowered == seq!['a', 'd', 'm', 'i', 'n'] {
        UserRole::Admin
    } else {
        UserRole::User
    }
}

impl Default for UserRole {
    fn default() -> (r: UserRole)
        ensures
            r == UserRole::User,
    {
        UserRole::User
    }
}

impl UserRole {
    /// The label of this role.
    pub fn label(&self) -> (r: String)
        ensures
            r@ == role_label(*self),
    {
        match self {
            UserRole::Admin => {
                let s = String::from_str("Admin");
                proof {
                    reveal_strlit("Admin");
                }
                s
            },
            UserRole::User => {
                let s = String::from_str("User");
                proof {
                    reveal_strlit("User");
                }
                s
            },
        }
    }

    /// The role whose label is exactly `s`.
    pub fn from_label(s: &str) -> (r: Option<UserRole>)
        ensures
            r == role_from_label(s@),
    {
        let admin = UserRole::Admin.label();
        let user = UserRole::User.label();
        let given = String::from_str(s);
        if given == admin {
            Some(UserRole::Admin)
        } else if given == user {
            Some(UserRole::User)
        } else {
            None
        }
    }
}

/// A label always reads back as the role it was made from.
pub proof fn lemma_label_round_trip(role: UserRole)
    ensures
        role_from_label(role_label(role)) == Some(role),
{
    assert(role_label(UserRole::Admin) != role_label(UserRole::User)) by {
        assert(role_label(UserRole::Admin).len() != role_label(UserRole::User).len());
    }
}

} // verus!
