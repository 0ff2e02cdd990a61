//! Users of the system.

use vstd::prelude::*;
use vstd::string::*;
use crate::codes::{DeptCode, SectionCode, UserId};
use crate::permissions::Permissions;

verus! {

/// A user, placed in a department and a section.
#[derive(Debug, Clone, PartialEq, Eq)]
pub struct User {
    pub id: UserId,
    pub name: String,
    pub department: DeptCode,
    pub section: SectionCode,
    pub permissions: Permissions,
}

impl User {
    /// A user with the default permissions.
    pub fn new(id: &str, name: &str, department: char, section: char) -> (r: Self)
        ensures
            r.id.0@ == id@,
            r.name@ == name@,
            r.department.0 == department,
            r.section.0 == section,
            r.permissions == (Permissions { can_create: true, can_update: true, can_delete: false, can_read: true }),
    {
        User {
            id: UserId::new(id),
            name: String::from_str(name),
            department: DeptCode::new(department),
            section: SectionCode::new(section),
            permissions: Permissions::default(),
        }
    }

    /// The same user with `permissions`.
    pub fn with_permissions(self, permissions: Permissions) -> (r: Self)
        ensures
            r.id == self.id,
            r.name == self.name,
            r.department == self.department,
            r.section == self.section,
            r.permissions == permissions,
    {
        let mut u = self;
        u.permissions = permissions;
        u
    }

    pub fn id(&self) -> (r: &UserId)
        ensures
            *r == self.id,
    {
        &self.id
    }

    pub fn name(&self) -> (r: &str)
        ensures
            r@ == self.name@,
    {
        self.name.as_str()
    }

    pub fn department(&self) -> (r: &DeptCode)
        ensures
            *r == self.department,
    {
        &self.department
    }

    pub fn section(&self) -> (r: &SectionCode)
        ensures
            *r == self.section,
    {
        &self.section
    }

    pub fn permissions(&self) -> (r: &Permissions)
        ensures
            *r == self.permissions,
    {
        &self.permissions
    }
}

} // verus!
