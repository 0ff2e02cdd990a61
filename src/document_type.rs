//! Document types: a code, a root directory and a generation rule.

use vstd::prelude::*;
use vstd::string::*;
use crate::codes::TypeCode;
use crate::rule::PathGenerationRule;

verus! {

/// A category of documents with its own root directory and number rule.
#[derive(Debug, Clone, PartialEq)]
pub struct DocumentType {
    pub code: TypeCode,
    pub description: String,
    pub root_directory: String,
    pub generation_rule: PathGenerationRule,
    pub active: bool,
}

impl DocumentType {
    /// An active document type.
    pub fn new(code: &str, description: &str, root_directory: &str, generation_rule: PathGenerationRule) -> (r:
        Self)
        ensures
            r.code.0@ == code@,
            r.description@ == description@,
            r.root_directory@ == root_directory@,
            r.generation_rule == generation_rule,
            r.active,
    {
        DocumentType {
            code: TypeCode::new(code),
            description: String::from_str(description),
            root_directory: String::from_str(root_directory),
            generation_rule,
            active: true,
        }
    }

    /// The same type, no longer active: numbers must not be generated for it.
    pub fn inactive(self) -> (r: Self)
        ensures
            r.code == self.code,
            r.description == self.description,
            r.root_directory == self.root_directory,
            r.generation_rule == self.generation_rule,
            !r.active,
    {
        let mut t = self;
        t.active = false;
        t
    }
}

} // verus!
