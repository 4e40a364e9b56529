//! Roles within an organization and what each may do.

use vstd::prelude::*;
use crate::text::same;

verus! {

/// A member's role in an organization.
#[derive(Clone, Copy, Debug, PartialEq, Eq, Structural)]
pub enum Role {
    Owner,
    Archivist,
    Conductor,
    Musician,
}

impl Role {
    /// The role's name.
    pub open spec fn name(self) -> Seq<char> {
        match self {
            Role::Owner => "owner"@,
            Role::Archivist => "archivist"@,
            Role::Conductor => "conductor"@,
            Role::Musician => "musician"@,
        }
    }

    /// Everyone but a plain musician is staff.
    pub open spec fn staff(self) -> bool {
        self != Role::Musician
    }

    pub open spec fn edits_arrangements(self) -> bool {
        self == Role::Owner || self == Role::Archivist
    }

    pub open spec fn builds_collections(self) -> bool {
        self == Role::Owner || self == Role::Archivist || self == Role::Conductor
    }

    pub open spec fn manages_members(self) -> bool {
        self == Role::Owner
    }

    pub open spec fn authors_global_annotations(self) -> bool {
        self == Role::Owner || self == Role::Conductor
    }

    /// The role's name.
    pub fn as_str(self) -> (r: &'static str)
        ensures
            r@ == self.name(),
    {
        match self {
            Role::Owner => "owner",
            Role::Archivist => "archivist",
            Role::Conductor => "conductor",
            Role::Musician => "musician",
        }
    }

    /// The role with the given name, if there is one.
    pub fn parse(raw: &str) -> (r: Option<Role>)
        ensures
            match r {
                Some(role) => raw@ == role.name(),
                None => forall|role: Role| raw@ != #[trigger] role.name(),
            },
    {
        if same(raw, "owner") {
            Some(Role::Owner)
        } else if same(raw, "archivist") {
            Some(Role::Archivist)
        } else if same(raw, "conductor") {
            Some(Role::Conductor)
        } else if same(raw, "musician") {
            Some(Role::Musician)
        } else {
            None
        }
    }

    pub fn is_staff(self) -> (r: bool)
        ensures
            r == self.staff(),
    {
        match self {
            Role::Owner | Role::Archivist | Role::Conductor => true,
            Role::Musician => false,
        }
    }

    pub fn can_edit_arrangements(self) -> (r: bool)
        ensures
            r == self.edits_arrangements(),
    {
        match self {
            Role::Owner | Role::Archivist => true,
            Role::Conductor | Role::Musician => false,
        }
    }

    pub fn can_build_collections(self) -> (r: bool)
        ensures
            r == self.builds_collections(),
    {
        match self {
            Role::Owner | Role::Archivist | Role::Conductor => true,
            Role::Musician => false,
        }
    }

    pub fn can_manage_members(self) -> (r: bool)
        ensures
            r == self.manages_members(),
    {
        match self {
            Role::Owner => true,
            Role::Archivist | Role::Conductor | Role::Musician => false,
        }
    }

    pub fn can_author_global_annotations(self) -> (r: bool)
        ensures
            r == self.authors_global_annotations(),
    {
        match self {
            Role::Owner | Role::Conductor => true,
            Role::Archivist | Role::Musician => false,
        }
    }
}

/// No two roles share a name, so a role's name reads back as that role.
pub proof fn role_names_are_distinct(a: Role, b: Role)
    ensures
        a.name() == b.name() ==> a == b,
{
    reveal_strlit("owner");
    reveal_strlit("archivist");
    reveal_strlit("conductor");
    reveal_strlit("musician");
    if a.name() == b.name() {
        assert(a.name()[0] == b.name()[0]);
        assert(a.name().len() == b.name().len());
    }
}

/// Each role may do no more than the owner.
pub proof fn owner_may_do_all_that_others_may(role: Role)
    ensures
        role.staff() ==> Role::Owner.staff(),
        role.edits_arrangements() ==> Role::Owner.edits_arrangements(),
        role.builds_collections() ==> Role::Owner.builds_collections(),
        role.manages_members() ==> Role::Owner.manages_members(),
        role.authors_global_annotations() ==> Role::Owner.authors_global_annotations(),
{
}

/// Roles go by these names.
pub proof fn roles_go_by_their_names()
    ensures
        Role::Owner.name() == "owner"@,
        Role::Archivist.name() == "archivist"@,
        Role::Conductor.name() == "conductor"@,
        Role::Musician.name() == "musician"@,
{
}

} // verus!
