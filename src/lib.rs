//! Document-number generation: the rule model, the scoped counter store,
//! the renderer that turns a rule and its context into a number, and the
//! service that ties them together; with the organisation's entities and
//! the checks on user input around them.

mod clock;
pub mod codes;
pub mod counter;
pub mod decimal;
pub mod document_path;
pub mod document_type;
pub mod error;
pub mod generation;
pub mod organization;
pub mod permissions;
pub mod render;
pub mod rule;
pub mod scope;
pub mod user;
pub mod validation;
pub mod query;
