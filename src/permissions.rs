//! What a user may do with documents.

use vstd::prelude::*;

verus! {

/// A user's access rights.
#[derive(Debug, Clone, Copy, PartialEq, Eq, Structural)]
pub struct Permissions {
    pub can_create: bool,
    pub can_update: bool,
    pub can_delete: bool,
    pub can_read: bool,
}

impl Default for Permissions {
    /// Create, update and read; deleting needs a special grant.
    fn default() -> (r: Self)
        ensures
            r == (Permissions { can_create: true, can_update: true, can_delete: false, can_read: true }),
    {
        Permissions { can_create: true, can_update: true, can_delete: false, can_read: true }
    }
}

impl Permissions {
    /// Every right.
    pub fn all() -> (r: Self)
        ensures
            r == (Permissions { can_create: true, can_update: true, can_delete: true, can_read: true }),
    {
        Permissions { can_create: true, can_update: true, can_delete: true, can_read: true }
    }

    /// Reading only.
    pub fn read_only() -> (r: Self)
        ensures
            r == (Permissions { can_create: false, can_update: false, can_delete: false, can_read: true }),
    {
        Permissions { can_create: false, can_update: false, can_delete: false, can_read: true }
    }

    /// Whether the user may write: create or update.
    pub fn can_write(&self) -> (r: bool)
        ensures
            r == (self.can_create || self.can_update),
    {
        self.can_create || self.can_update
    }
}

} // verus!
