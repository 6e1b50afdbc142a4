//! Directed relations between two Works of the same control plane.
use vstd::prelude::*;

use crate::domain::error::DomainError;
use crate::domain::ids::WorkId;
use crate::text::{owned, str_eq};

verus! {

/// Closed relation vocabulary. Direction is always `from` -> `to`.
#[derive(Clone, Copy, Debug, PartialEq, Eq, Hash, Structural)]
pub enum RelationKind {
    ParentChild,
    Blocks,
    Follows,
}

/// The wire name of a relation kind.
pub open spec fn relation_kind_name(k: RelationKind) -> Seq<char> {
    match k {
        RelationKind::ParentChild => "parent_child"@,
        RelationKind::Blocks => "blocks"@,
        RelationKind::Follows => "follows"@,
    }
}

/// The relation kind whose wire name is `s`, if any.
pub open spec fn relation_kind_named(s: Seq<char>) -> Option<RelationKind> {
    if s == "parent_child"@ {
        Some(RelationKind::ParentChild)
    } else if s == "blocks"@ {
        Some(RelationKind::Blocks)
    } else if s == "follows"@ {
        Some(RelationKind::Follows)
    } else {
        None
    }
}

impl RelationKind {
    pub const ALL: [RelationKind; 3] = [
        RelationKind::ParentChild,
        RelationKind::Blocks,
        RelationKind::Follows,
    ];

    pub fn as_str(self) -> (r: &'static str)
        ensures
            r@ == relation_kind_name(self),
    {
        match self {
            RelationKind::ParentChild => "parent_child",
            RelationKind::Blocks => "blocks",
            RelationKind::Follows => "follows",
        }
    }

    pub fn parse(s: &str) -> (r: Result<RelationKind, DomainError>)
        ensures
            match relation_kind_named(s@) {
                Some(k) => r == Ok::<RelationKind, DomainError>(k),
                None => r matches Err(DomainError::UnknownRelationKind(t)) && t@ == s@,
            },
    {
        if str_eq(s, "parent_child") {
            Ok(RelationKind::ParentChild)
        } else if str_eq(s, "blocks") {
            Ok(RelationKind::Blocks)
        } else if str_eq(s, "follows") {
            Ok(RelationKind::Follows)
        } else {
            Err(DomainError::UnknownRelationKind(owned(s)))
        }
    }
}

impl core::str::FromStr for RelationKind {
    type Err = DomainError;

    fn from_str(s: &str) -> (r: Result<RelationKind, DomainError>)
        ensures
            match relation_kind_named(s@) {
                Some(k) => r == Ok::<RelationKind, DomainError>(k),
                None => r matches Err(DomainError::UnknownRelationKind(t)) && t@ == s@,
            },
    {
        RelationKind::parse(s)
    }
}

/// Every relation kind is read back from its own wire name.
pub proof fn lemma_relation_kind_name_roundtrip(k: RelationKind)
    ensures
        relation_kind_named(relation_kind_name(k)) == Some(k),
{
    reveal_strlit("parent_child");
    reveal_strlit("blocks");
    reveal_strlit("follows");
    assert("parent_child"@.len() == 12);
    assert("blocks"@.len() == 6);
    assert("follows"@.len() == 7);
}

/// A relation as data: two distinct Work ids and a kind.
pub struct RelationView {
    pub from: Seq<char>,
    pub to: Seq<char>,
    pub kind: RelationKind,
}

/// Relation data persisted by the control plane, never an implicit Worker chat.
#[derive(Debug, PartialEq, Eq)]
pub struct WorkRelation {
    from: WorkId,
    to: WorkId,
    kind: RelationKind,
}

impl View for WorkRelation {
    type V = RelationView;

    closed spec fn view(&self) -> RelationView {
        RelationView { from: self.from@, to: self.to@, kind: self.kind }
    }
}

impl WorkRelation {
    /// A relation between two Works. A Work cannot relate to itself.
    pub fn new(from: WorkId, to: WorkId, kind: RelationKind) -> (r: Result<WorkRelation, DomainError>)
        ensures
            from@ == to@ ==> r == Err::<WorkRelation, DomainError>(DomainError::InvalidRelation),
            from@ != to@ ==> (r matches Ok(rel) && rel@ == (RelationView {
                from: from@,
                to: to@,
                kind,
            })),
    {
        if str_eq(from.as_str(), to.as_str()) {
            return Err(DomainError::InvalidRelation);
        }
        Ok(WorkRelation { from, to, kind })
    }

    pub fn from(&self) -> (r: &WorkId)
        ensures
            r@ == self@.from,
    {
        &self.from
    }

    pub fn to(&self) -> (r: &WorkId)
        ensures
            r@ == self@.to,
    {
        &self.to
    }

    pub fn kind(&self) -> (r: RelationKind)
        ensures
            r == self@.kind,
    {
        self.kind
    }
}

} // verus!
