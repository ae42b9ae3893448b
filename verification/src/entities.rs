//! The domain entities of the identity domain: users, organizations, teams
//! and the email-alias record that gives users an alternate lookup path.
//! Each executable type has a spec-level view over `Seq<char>` fields, and
//! contracts throughout the crate speak of those views.
use vstd::prelude::*;

verus! {

/// A role a user may hold. Roles form a closed set; only the superuser
/// role carries behavior in this layer (it tags the user in GSI2).
#[derive(Clone, Copy, Debug, PartialEq, Eq, Structural)]
pub enum Role {
    Superuser,
    Standard,
}

/// The roles of a user, kept in the order given at creation.
pub struct Roles(pub Vec<Role>);

impl View for Roles {
    type V = Seq<Role>;

    open spec fn view(&self) -> Seq<Role> {
        self.0@
    }
}

impl Roles {
    /// Whether the superuser role is among the roles.
    pub open spec fn spec_has_superuser(rs: Seq<Role>) -> bool {
        exists|i: int| 0 <= i < rs.len() && rs[i] is Superuser
    }

    /// Tests for the superuser role.
    pub fn has_superuser(&self) -> (r: bool)
        ensures
            r == Roles::spec_has_superuser(self@),
    {
        let mut i: usize = 0;
        while i < self.0.len()
            invariant
                i <= self.0.len(),
                forall|j: int| 0 <= j < i ==> !(self.0@[j] is Superuser),
            decreases self.0.len() - i,
        {
            if matches!(self.0[i], Role::Superuser) {
                return true;
            }
            i += 1;
        }
        false
    }
}

/// The spec view of a user.
pub ghost struct UserV {
    pub id: Seq<char>,
    pub email: Seq<char>,
    pub first_name: Seq<char>,
    pub last_name: Seq<char>,
    pub roles: Seq<Role>,
    pub active: bool,
    pub hash: Seq<char>,
}

/// A user: a root entity addressed by id, with an alternate lookup path
/// by email through its paired email-alias record.
pub struct User {
    pub id: String,
    pub email: String,
    pub first_name: String,
    pub last_name: String,
    pub roles: Roles,
    pub active: bool,
    pub hash: String,
}

impl View for User {
    type V = UserV;

    open spec fn view(&self) -> UserV {
        UserV {
            id: self.id@,
            email: self.email@,
            first_name: self.first_name@,
            last_name: self.last_name@,
            roles: self.roles@,
            active: self.active,
            hash: self.hash@,
        }
    }
}

/// The spec view of an organization.
pub ghost struct OrgV {
    pub id: Seq<char>,
    pub name: Seq<char>,
    pub active: bool,
}

/// An organization: a root entity addressed by id, indexed by name.
pub struct Org {
    pub id: String,
    pub name: String,
    pub active: bool,
}

impl View for Org {
    type V = OrgV;

    open spec fn view(&self) -> OrgV {
        OrgV { id: self.id@, name: self.name@, active: self.active }
    }
}

/// The spec view of a team.
pub ghost struct TeamV {
    pub id: Seq<char>,
    pub name: Seq<char>,
    pub active: bool,
}

/// A team: a root entity addressed by id, indexed by name, and tagged in
/// GSI2 so that all teams can be listed.
pub struct Team {
    pub id: String,
    pub name: String,
    pub active: bool,
}

impl View for Team {
    type V = TeamV;

    open spec fn view(&self) -> TeamV {
        TeamV { id: self.id@, name: self.name@, active: self.active }
    }
}

/// The spec view of an email-alias record.
pub ghost struct EmailAliasV {
    pub email: Seq<char>,
    pub user_id: Seq<char>,
}

/// The email-alias record: a reverse pointer from an email address to the
/// id of the user holding it, stored as a separate root item.
pub struct EmailAlias {
    pub email: String,
    pub user_id: String,
}

impl View for EmailAlias {
    type V = EmailAliasV;

    open spec fn view(&self) -> EmailAliasV {
        EmailAliasV { email: self.email@, user_id: self.user_id@ }
    }
}

} // verus!
