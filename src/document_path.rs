//! A registered document: its number, its owners and its file path.

use vstd::prelude::*;
use vstd::string::*;
use crate::clock::utc_now;
use crate::codes::{DeptCode, DocumentId, SectionCode, TaskId, TypeCode, UserId};

verus! {

/// Relies on uuid's `Uuid::new_v4` and its `Display`, which writes the
/// hyphenated form: a fresh random identifier of 36 characters.
#[verifier::external_body]
fn new_document_id() -> (r: DocumentId)
    ensures
        r.0@.len() == 36,
{
    DocumentId(uuid::Uuid::new_v4().to_string())
}

/// A document with its path. Times are milliseconds since the Unix epoch, UTC.
#[derive(Debug, Clone, PartialEq, Eq)]
pub struct DocumentPath {
    pub id: DocumentId,
    pub document_number: String,
    pub document_type: TypeCode,
    pub department: DeptCode,
    pub section: SectionCode,
    pub business_task: Option<TaskId>,
    pub user: UserId,
    pub file_path: String,
    pub created_at: i64,
    pub updated_at: i64,
    /// Whether the number was generated (as opposed to given by hand).
    pub generated: bool,
    /// Whether the document is logically deleted.
    pub deleted: bool,
}

impl DocumentPath {
    /// A new document under `document_number`, tied to no task, not deleted,
    /// created and updated now.
    pub open spec fn is_fresh(
        &self,
        document_number: Seq<char>,
        document_type: TypeCode,
        department: DeptCode,
        section: SectionCode,
        user: UserId,
        file_path: Seq<char>,
    ) -> bool {
        &&& self.id.0@.len() == 36
        &&& self.document_number@ == document_number
        &&& self.document_type == document_type
        &&& self.department == department
        &&& self.section == section
        &&& self.business_task is None
        &&& self.user == user
        &&& self.file_path@ == file_path
        &&& self.updated_at == self.created_at
        &&& !self.deleted
    }

    fn fresh(
        document_number: &str,
        document_type: TypeCode,
        department: DeptCode,
        section: SectionCode,
        user: UserId,
        file_path: &str,
        generated: bool,
    ) -> (r: Self)
        ensures
            r.is_fresh(document_number@, document_type, department, section, user, file_path@),
            r.generated == generated,
    {
        let now = utc_now().millis;
        DocumentPath {
            id: new_document_id(),
            document_number: String::from_str(document_number),
            document_type,
            department,
            section,
            business_task: None,
            user,
            file_path: String::from_str(file_path),
            created_at: now,
            updated_at: now,
            generated,
            deleted: false,
        }
    }

    /// A document whose number was generated.
    pub fn new_auto(
        document_number: &str,
        document_type: TypeCode,
        department: DeptCode,
        section: SectionCode,
        user: UserId,
        file_path: &str,
    ) -> (r: Self)
        ensures
            r.is_fresh(document_number@, document_type, department, section, user, file_path@),
            r.generated,
    {
        Self::fresh(document_number, document_type, department, section, user, file_path, true)
    }

    /// A document whose number was given by hand.
    pub fn new_manual(
        document_number: &str,
        document_type: TypeCode,
        department: DeptCode,
        section: SectionCode,
        user: UserId,
        file_path: &str,
    ) -> (r: Self)
        ensures
            r.is_fresh(document_number@, document_type, department, section, user, file_path@),
            !r.generated,
    {
        Self::fresh(document_number, document_type, department, section, user, file_path, false)
    }

    /// The same document tied to `task_id`.
    pub fn with_task(self, task_id: TaskId) -> (r: Self)
        ensures
            r == (DocumentPath { business_task: Some(task_id), ..self }),
    {
        let mut d = self;
        d.business_task = Some(task_id);
        d
    }

    /// Moves the document to `new_path` and stamps it as updated now.
    pub fn update_path(&mut self, new_path: &str)
        ensures
            final(self).file_path@ == new_path@,
            *final(self) == (DocumentPath {
                file_path: final(self).file_path,
                updated_at: final(self).updated_at,
                ..*old(self)
            }),
    {
        self.file_path = String::from_str(new_path);
        self.updated_at = utc_now().millis;
    }

    /// Marks the document as logically deleted and stamps it as updated now.
    pub fn delete(&mut self)
        ensures
            final(self).deleted,
            *final(self) == (DocumentPath { deleted: true, updated_at: final(self).updated_at, ..*old(self) }),
    {
        self.deleted = true;
        self.updated_at = utc_now().millis;
    }

    pub fn id(&self) -> (r: &DocumentId)
        ensures
            *r == self.id,
    {
        &self.id
    }

    pub fn document_number(&self) -> (r: &str)
        ensures
            r@ == self.document_number@,
    {
        self.document_number.as_str()
    }

    pub fn document_type(&self) -> (r: &TypeCode)
        ensures
            *r == self.document_type,
    {
        &self.document_type
    }

    pub fn department(&self) -> (r: &DeptCode)
        ensures
            *r == self.department,
    {
        &self.department
    }

    pub fn section(&self) -> (r: &SectionCode)
        ensures
            *r == self.section,
    {
        &self.section
    }

    pub fn business_task(&self) -> (r: Option<&TaskId>)
        ensures
            r matches Some(t) ==> self.business_task == Some(*t),
            r is None <==> self.business_task is None,
    {
        match &self.business_task {
            Some(t) => Some(t),
            None => None,
        }
    }

    pub fn user(&self) -> (r: &UserId)
        ensures
            *r == self.user,
    {
        &self.user
    }

    pub fn file_path(&self) -> (r: &str)
        ensures
            r@ == self.file_path@,
    {
        self.file_path.as_str()
    }

    pub fn created_at(&self) -> (r: i64)
        ensures
            r == self.created_at,
    {
        self.created_at
    }

    pub fn updated_at(&self) -> (r: i64)
        ensures
            r == self.updated_at,
    {
        self.updated_at
    }

    pub fn generated(&self) -> (r: bool)
        ensures
            r == self.generated,
    {
        self.generated
    }

    pub fn deleted(&self) -> (r: bool)
        ensures
            r == self.deleted,
    {
        self.deleted
    }

    /// A copy of the document.
    pub fn duplicate(&self) -> (r: Self)
        ensures
            r == *self,
    {
        DocumentPath {
            id: DocumentId(self.id.0.clone()),
            document_number: self.document_number.clone(),
            document_type: TypeCode(self.document_type.0.clone()),
            department: self.department,
            section: self.section,
            business_task: match &self.business_task {
                Some(t) => Some(TaskId(t.0.clone())),
                None => None,
            },
            user: UserId(self.user.0.clone()),
            file_path: self.file_path.clone(),
            created_at: self.created_at,
            updated_at: self.updated_at,
            generated: self.generated,
            deleted: self.deleted,
        }
    }
}

} // verus!
