//! The library's error type.

use vstd::prelude::*;

verus! {

/// Every failure the library reports.
#[derive(Debug, Clone, PartialEq, Eq)]
pub enum Error {
    DocumentNotFound(String),
    RelativePathNotAllowed,
    InvalidTypeCode(String),
    DepartmentNotFound(char),
    SectionNotFound(char),
    UserNotFound(String),
    BusinessTaskNotFound(String),
    UnauthorizedDocumentType,
    DuplicateDocumentNumber(String),
    ConcurrentModification,
    /// A rule holds a component that the renderer cannot interpret.
    InvalidRuleComponent(String),
    /// A rule was built from values that no rule may hold.
    InvalidRule(String),
    /// The counter store could not hand out a next value.
    CounterPersistenceFailure(String),
    Internal(String),
}

pub type Result<T> = core::result::Result<T, Error>;

} // verus!
