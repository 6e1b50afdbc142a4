//! Opaque identifiers: Work, execution, attempt and project.
//!
//! Each is 1 to 128 ASCII letters, digits, `-` or `_`, so a directory named
//! by one cannot escape the root that it is placed under.
use vstd::prelude::*;

use crate::domain::error::DomainError;
use crate::text::{owned, parse_opaque_id, valid_opaque_id};

verus! {

/// Stable identifier of one Work. Opaque; not a product or tracker key.
#[derive(Debug, Hash)]
pub struct WorkId(String);

/// Stable identity of one logical execution of a Work.
#[derive(Debug, Hash)]
pub struct ExecutionId(String);

/// Identity of one Worker process attempt within an execution.
#[derive(Debug, Hash)]
pub struct AttemptId(String);

/// Opaque identity of one isolated project or repository queue.
#[derive(Debug, Hash)]
pub struct ProjectId(String);

impl View for WorkId {
    type V = Seq<char>;

    closed spec fn view(&self) -> Seq<char> {
        self.0@
    }
}

impl View for ExecutionId {
    type V = Seq<char>;

    closed spec fn view(&self) -> Seq<char> {
        self.0@
    }
}

impl View for AttemptId {
    type V = Seq<char>;

    closed spec fn view(&self) -> Seq<char> {
        self.0@
    }
}

impl View for ProjectId {
    type V = Seq<char>;

    closed spec fn view(&self) -> Seq<char> {
        self.0@
    }
}

/// The name of the project that Work belongs to when none is given.
pub open spec fn default_project_name() -> Seq<char> {
    "default"@
}

impl WorkId {
    /// Every value is a valid opaque identifier, safe as one path component.
    #[verifier::type_invariant]
    pub open spec fn well_formed(self) -> bool {
        valid_opaque_id(self@)
    }

    /// Parses a Work id. Rejects empty values, values over 128 bytes and any
    /// character but ASCII letters, digits, `-` and `_`.
    pub fn parse(raw: &str) -> (r: Result<WorkId, DomainError>)
        ensures
            match r {
                Ok(id) => valid_opaque_id(raw@) && id@ == raw@,
                Err(e) => !valid_opaque_id(raw@) && e == DomainError::InvalidWorkId,
            },
    {
        match parse_opaque_id(raw) {
            Some(v) => Ok(WorkId(v)),
            None => Err(DomainError::InvalidWorkId),
        }
    }

    pub fn as_str(&self) -> (r: &str)
        ensures
            r@ == self@,
    {
        self.0.as_str()
    }
}

impl ExecutionId {
    /// Every value is a valid opaque identifier, safe as one path component.
    #[verifier::type_invariant]
    pub open spec fn well_formed(self) -> bool {
        valid_opaque_id(self@)
    }

    pub fn parse(raw: &str) -> (r: Result<ExecutionId, DomainError>)
        ensures
            match r {
                Ok(id) => valid_opaque_id(raw@) && id@ == raw@,
                Err(e) => !valid_opaque_id(raw@) && e == DomainError::InvalidExecutionId,
            },
    {
        match parse_opaque_id(raw) {
            Some(v) => Ok(ExecutionId(v)),
            None => Err(DomainError::InvalidExecutionId),
        }
    }

    pub fn as_str(&self) -> (r: &str)
        ensures
            r@ == self@,
    {
        self.0.as_str()
    }
}

impl AttemptId {
    /// Every value is a valid opaque identifier, safe as one path component.
    #[verifier::type_invariant]
    pub open spec fn well_formed(self) -> bool {
        valid_opaque_id(self@)
    }

    pub fn parse(raw: &str) -> (r: Result<AttemptId, DomainError>)
        ensures
            match r {
                Ok(id) => valid_opaque_id(raw@) && id@ == raw@,
                Err(e) => !valid_opaque_id(raw@) && e == DomainError::InvalidAttemptId,
            },
    {
        match parse_opaque_id(raw) {
            Some(v) => Ok(AttemptId(v)),
            None => Err(DomainError::InvalidAttemptId),
        }
    }

    pub fn as_str(&self) -> (r: &str)
        ensures
            r@ == self@,
    {
        self.0.as_str()
    }
}

impl ProjectId {
    /// Every value is a valid opaque identifier, safe as one path component.
    #[verifier::type_invariant]
    pub open spec fn well_formed(self) -> bool {
        valid_opaque_id(self@)
    }

    pub fn parse(raw: &str) -> (r: Result<ProjectId, DomainError>)
        ensures
            match r {
                Ok(id) => valid_opaque_id(raw@) && id@ == raw@,
                Err(e) => !valid_opaque_id(raw@) && e == DomainError::InvalidProjectId,
            },
    {
        match parse_opaque_id(raw) {
            Some(v) => Ok(ProjectId(v)),
            None => Err(DomainError::InvalidProjectId),
        }
    }

    pub fn default_project() -> (r: ProjectId)
        ensures
            r@ == default_project_name(),
    {
        proof {
            reveal_strlit("default");
            assert(valid_opaque_id("default"@));
        }
        ProjectId(owned("default"))
    }

    pub fn as_str(&self) -> (r: &str)
        ensures
            r@ == self@,
    {
        self.0.as_str()
    }
}

impl Clone for WorkId {
    fn clone(&self) -> (r: Self)
        ensures
            r@ == self@,
    {
        proof {
            use_type_invariant(self);
        }
        WorkId(self.0.clone())
    }
}

impl Clone for ExecutionId {
    fn clone(&self) -> (r: Self)
        ensures
            r@ == self@,
    {
        proof {
            use_type_invariant(self);
        }
        ExecutionId(self.0.clone())
    }
}

impl Clone for AttemptId {
    fn clone(&self) -> (r: Self)
        ensures
            r@ == self@,
    {
        proof {
            use_type_invariant(self);
        }
        AttemptId(self.0.clone())
    }
}

impl Clone for ProjectId {
    fn clone(&self) -> (r: Self)
        ensures
            r@ == self@,
    {
        proof {
            use_type_invariant(self);
        }
        ProjectId(self.0.clone())
    }
}

impl PartialEq for WorkId {
    fn eq(&self, other: &Self) -> (r: bool) {
        self.0 == other.0
    }
}

impl vstd::std_specs::cmp::PartialEqSpecImpl for WorkId {
    open spec fn obeys_eq_spec() -> bool {
        true
    }

    open spec fn eq_spec(&self, other: &Self) -> bool {
        self@ == other@
    }
}

impl Eq for WorkId {}

impl PartialEq for ExecutionId {
    fn eq(&self, other: &Self) -> (r: bool) {
        self.0 == other.0
    }
}

impl vstd::std_specs::cmp::PartialEqSpecImpl for ExecutionId {
    open spec fn obeys_eq_spec() -> bool {
        true
    }

    open spec fn eq_spec(&self, other: &Self) -> bool {
        self@ == other@
    }
}

impl Eq for ExecutionId {}

impl PartialEq for AttemptId {
    fn eq(&self, other: &Self) -> (r: bool) {
        self.0 == other.0
    }
}

impl vstd::std_specs::cmp::PartialEqSpecImpl for AttemptId {
    open spec fn obeys_eq_spec() -> bool {
        true
    }

    open spec fn eq_spec(&self, other: &Self) -> bool {
        self@ == other@
    }
}

impl Eq for AttemptId {}

impl PartialEq for ProjectId {
    fn eq(&self, other: &Self) -> (r: bool) {
        self.0 == other.0
    }
}

impl vstd::std_specs::cmp::PartialEqSpecImpl for ProjectId {
    open spec fn obeys_eq_spec() -> bool {
        true
    }

    open spec fn eq_spec(&self, other: &Self) -> bool {
        self@ == other@
    }
}

impl Eq for ProjectId {}

impl core::str::FromStr for WorkId {
    type Err = DomainError;

    fn from_str(s: &str) -> (r: Result<WorkId, DomainError>)
        ensures
            match r {
                Ok(id) => valid_opaque_id(s@) && id@ == s@,
                Err(e) => !valid_opaque_id(s@) && e == DomainError::InvalidWorkId,
            },
    {
        WorkId::parse(s)
    }
}

impl core::str::FromStr for ExecutionId {
    type Err = DomainError;

    fn from_str(s: &str) -> (r: Result<ExecutionId, DomainError>)
        ensures
            match r {
                Ok(id) => valid_opaque_id(s@) && id@ == s@,
                Err(e) => !valid_opaque_id(s@) && e == DomainError::InvalidExecutionId,
            },
    {
        ExecutionId::parse(s)
    }
}

impl core::str::FromStr for AttemptId {
    type Err = DomainError;

    fn from_str(s: &str) -> (r: Result<AttemptId, DomainError>)
        ensures
            match r {
                Ok(id) => valid_opaque_id(s@) && id@ == s@,
                Err(e) => !valid_opaque_id(s@) && e == DomainError::InvalidAttemptId,
            },
    {
        AttemptId::parse(s)
    }
}

impl core::str::FromStr for ProjectId {
    type Err = DomainError;

    fn from_str(s: &str) -> (r: Result<ProjectId, DomainError>)
        ensures
            match r {
                Ok(id) => valid_opaque_id(s@) && id@ == s@,
                Err(e) => !valid_opaque_id(s@) && e == DomainError::InvalidProjectId,
            },
    {
        ProjectId::parse(s)
    }
}

} // verus!
