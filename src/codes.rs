//! Codes and identifiers of the organisation's entities.

use vstd::prelude::*;
use vstd::string::*;
use crate::decimal::push_char;

verus! {

/// Department code (a single letter).
#[derive(Debug, Clone, Copy, PartialEq, Eq, Hash, Structural)]
pub struct DeptCode(pub char);

impl DeptCode {
    pub fn new(code: char) -> (r: Self)
        ensures
            r.0 == code,
    {
        DeptCode(code)
    }

    /// The code as a one-character string.
    pub fn to_string(&self) -> (r: String)
        ensures
            r@ == seq![self.0],
    {
        let mut s = String::new();
        push_char(&mut s, self.0);
        s
    }
}

/// Section code (a single letter).
#[derive(Debug, Clone, Copy, PartialEq, Eq, Hash, Structural)]
pub struct SectionCode(pub char);

impl SectionCode {
    pub fn new(code: char) -> (r: Self)
        ensures
            r.0 == code,
    {
        SectionCode(code)
    }

    /// The code as a one-character string.
    pub fn to_string(&self) -> (r: String)
        ensures
            r@ == seq![self.0],
    {
        let mut s = String::new();
        push_char(&mut s, self.0);
        s
    }
}

/// User identifier.
#[derive(Debug, Clone, PartialEq, Eq, Hash)]
pub struct UserId(pub String);

impl UserId {
    pub fn new(id: &str) -> (r: Self)
        ensures
            r.0@ == id@,
    {
        UserId(String::from_str(id))
    }

    pub fn to_string(&self) -> (r: String)
        ensures
            r@ == self.0@,
    {
        self.0.clone()
    }
}

/// Business task identifier.
#[derive(Debug, Clone, PartialEq, Eq, Hash)]
pub struct TaskId(pub String);

impl TaskId {
    pub fn new(id: &str) -> (r: Self)
        ensures
            r.0@ == id@,
    {
        TaskId(String::from_str(id))
    }

    pub fn to_string(&self) -> (r: String)
        ensures
            r@ == self.0@,
    {
        self.0.clone()
    }
}

/// Document identifier.
#[derive(Debug, Clone, PartialEq, Eq, Hash)]
pub struct DocumentId(pub String);

impl DocumentId {
    pub fn new(id: &str) -> (r: Self)
        ensures
            r.0@ == id@,
    {
        DocumentId(String::from_str(id))
    }

    pub fn to_string(&self) -> (r: String)
        ensures
            r@ == self.0@,
    {
        self.0.clone()
    }
}

/// Document type code: one to three characters, possibly multi-byte.
#[derive(Debug, Clone, PartialEq, Eq, Hash)]
pub struct TypeCode(pub String);

impl TypeCode {
    pub fn new(code: &str) -> (r: Self)
        ensures
            r.0@ == code@,
    {
        TypeCode(String::from_str(code))
    }

    pub fn to_string(&self) -> (r: String)
        ensures
            r@ == self.0@,
    {
        self.0.clone()
    }
}

} // verus!
