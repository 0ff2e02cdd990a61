//! Departments, sections and business tasks.

use vstd::prelude::*;
use vstd::string::*;
use crate::codes::{DeptCode, SectionCode, TaskId};

verus! {

/// A department, with the sections that belong to it.
#[derive(Debug, Clone, PartialEq, Eq)]
pub struct Department {
    pub code: DeptCode,
    pub name: String,
    pub sections: Vec<SectionCode>,
}

impl Department {
    /// A department with no sections.
    pub fn new(code: char, name: &str) -> (r: Self)
        ensures
            r.code.0 == code,
            r.name@ == name@,
            r.sections@.len() == 0,
    {
        Department { code: DeptCode::new(code), name: String::from_str(name), sections: Vec::new() }
    }

    /// The same department with `sections` as its sections.
    pub fn with_sections(self, sections: Vec<SectionCode>) -> (r: Self)
        ensures
            r.code == self.code,
            r.name == self.name,
            r.sections@ == sections@,
    {
        let mut d = self;
        d.sections = sections;
        d
    }

    /// Adds `section` unless the department already has it.
    pub fn add_section(&mut self, section: SectionCode)
        ensures
            final(self).code == old(self).code,
            final(self).name == old(self).name,
            final(self).sections@ == if old(self).sections@.contains(section) {
                old(self).sections@
            } else {
                old(self).sections@.push(section)
            },
    {
        let mut i: usize = 0;
        while i < self.sections.len()
            invariant
                0 <= i <= self.sections@.len(),
                forall|j: int| 0 <= j < i ==> #[trigger] self.sections@[j] != section,
            decreases self.sections@.len() - i,
        {
            if self.sections[i].0 == section.0 {
                assert(self.sections@[i as int] == section);
                return;
            }
            i = i + 1;
        }
        assert(!self.sections@.contains(section));
        self.sections.push(section);
    }
}

/// A section of a department.
#[derive(Debug, Clone, PartialEq, Eq)]
pub struct Section {
    pub code: SectionCode,
    pub name: String,
    pub department: DeptCode,
}

impl Section {
    pub fn new(code: char, name: &str, department: char) -> (r: Self)
        ensures
            r.code.0 == code,
            r.name@ == name@,
            r.department.0 == department,
    {
        Section { code: SectionCode::new(code), name: String::from_str(name), department: DeptCode::new(department) }
    }

    pub fn code(&self) -> (r: &SectionCode)
        ensures
            *r == self.code,
    {
        &self.code
    }

    pub fn name(&self) -> (r: &str)
        ensures
            r@ == self.name@,
    {
        self.name.as_str()
    }

    pub fn department(&self) -> (r: &DeptCode)
        ensures
            *r == self.department,
    {
        &self.department
    }
}

/// A business task, possibly tied to a department and a section.
#[derive(Debug, Clone, PartialEq, Eq)]
pub struct BusinessTask {
    pub id: TaskId,
    pub description: String,
    pub department: Option<DeptCode>,
    pub section: Option<SectionCode>,
    pub active: bool,
}

impl BusinessTask {
    /// An active task tied to no department and no section.
    pub fn new(id: &str, description: &str) -> (r: Self)
        ensures
            r.id.0@ == id@,
            r.description@ == description@,
            r.department is None,
            r.section is None,
            r.active,
    {
        BusinessTask {
            id: TaskId::new(id),
            description: String::from_str(description),
            department: None,
            section: None,
            active: true,
        }
    }

    /// The same task tied to `department`.
    pub fn with_department(self, department: char) -> (r: Self)
        ensures
            r.id == self.id,
            r.description == self.description,
            r.department == Some(DeptCode(department)),
            r.section == self.section,
            r.active == self.active,
    {
        let mut t = self;
        t.department = Some(DeptCode::new(department));
        t
    }

    /// The same task tied to `section`.
    pub fn with_section(self, section: char) -> (r: Self)
        ensures
            r.id == self.id,
            r.description == self.description,
            r.department == self.department,
            r.section == Some(SectionCode(section)),
            r.active == self.active,
    {
        let mut t = self;
        t.section = Some(SectionCode::new(section));
        t
    }

    /// The same task, no longer active.
    pub fn inactive(self) -> (r: Self)
        ensures
            r.id == self.id,
            r.description == self.description,
            r.department == self.department,
            r.section == self.section,
            !r.active,
    {
        let mut t = self;
        t.active = false;
        t
    }
}

} // verus!
