//! Document queries: criteria built step by step, and the selection of the
//! documents that meet them.

use vstd::prelude::*;
use crate::codes::{DeptCode, SectionCode, TaskId, TypeCode, UserId};
use crate::document_path::DocumentPath;

verus! {

/// The criteria of a query, as plain values: `None` places no condition.
pub struct DocumentFilter {
    pub type_code: Option<Seq<char>>,
    pub department: Option<char>,
    pub section: Option<char>,
    pub task: Option<Seq<char>>,
    pub user: Option<Seq<char>>,
    pub include_deleted: bool,
}

/// Whether `doc` meets every criterion of `f`; a task criterion is not met
/// by a document tied to no task.
pub open spec fn selects(f: DocumentFilter, doc: DocumentPath) -> bool {
    &&& f.include_deleted || !doc.deleted
    &&& f.type_code matches Some(t) ==> doc.document_type.0@ == t
    &&& f.department matches Some(d) ==> doc.department.0 == d
    &&& f.section matches Some(s) ==> doc.section.0 == s
    &&& f.task matches Some(t) ==> (doc.business_task matches Some(dt) && dt.0@ == t)
    &&& f.user matches Some(u) ==> doc.user.0@ == u
}

/// The criteria given by optional codes and identifiers.
pub open spec fn filter_of(
    type_code: Option<TypeCode>,
    department: Option<DeptCode>,
    section: Option<SectionCode>,
    task: Option<TaskId>,
    user: Option<UserId>,
    include_deleted: bool,
) -> DocumentFilter {
    DocumentFilter {
        type_code: match type_code {
            Some(t) => Some(t.0@),
            None => None,
        },
        department: match department {
            Some(d) => Some(d.0),
            None => None,
        },
        section: match section {
            Some(s) => Some(s.0),
            None => None,
        },
        task: match task {
            Some(t) => Some(t.0@),
            None => None,
        },
        user: match user {
            Some(u) => Some(u.0@),
            None => None,
        },
        include_deleted,
    }
}

/// No criterion but that deleted documents are left out.
pub open spec fn no_criteria() -> DocumentFilter {
    DocumentFilter {
        type_code: None,
        department: None,
        section: None,
        task: None,
        user: None,
        include_deleted: false,
    }
}

/// The documents of `docs` that `f` selects, in their order.
pub open spec fn selection(f: DocumentFilter, docs: Seq<DocumentPath>) -> Seq<DocumentPath>
    decreases docs.len(),
{
    if docs.len() == 0 {
        Seq::empty()
    } else {
        let rest = selection(f, docs.drop_last());
        if selects(f, docs.last()) {
            rest.push(docs.last())
        } else {
            rest
        }
    }
}

fn str_eq(a: &String, b: &String) -> (r: bool)
    ensures
        r == (a@ == b@),
{
    *a == *b
}

/// Whether `doc` meets the criteria; the criteria are given field by field.
fn meets(
    type_code: &Option<TypeCode>,
    department: &Option<DeptCode>,
    section: &Option<SectionCode>,
    task: &Option<TaskId>,
    user: &Option<UserId>,
    include_deleted: bool,
    doc: &DocumentPath,
) -> (r: bool)
    ensures
        r == selects(filter_of(*type_code, *department, *section, *task, *user, include_deleted), *doc),
{
    if !include_deleted && doc.deleted {
        return false;
    }
    if let Some(t) = type_code {
        if !str_eq(&doc.document_type.0, &t.0) {
            return false;
        }
    }
    if let Some(d) = department {
        if doc.department.0 != d.0 {
            return false;
        }
    }
    if let Some(s) = section {
        if doc.section.0 != s.0 {
            return false;
        }
    }
    if let Some(t) = task {
        match &doc.business_task {
            Some(dt) => {
                if !str_eq(&dt.0, &t.0) {
                    return false;
                }
            },
            None => {
                return false;
            },
        }
    }
    if let Some(u) = user {
        if !str_eq(&doc.user.0, &u.0) {
            return false;
        }
    }
    true
}

/// Copies of the documents of `docs` that meet the criteria, in order.
fn select_documents(
    type_code: &Option<TypeCode>,
    department: &Option<DeptCode>,
    section: &Option<SectionCode>,
    task: &Option<TaskId>,
    user: &Option<UserId>,
    include_deleted: bool,
    docs: &Vec<DocumentPath>,
) -> (r: Vec<DocumentPath>)
    ensures
        r@ == selection(filter_of(*type_code, *department, *section, *task, *user, include_deleted), docs@),
{
    let ghost f = filter_of(*type_code, *department, *section, *task, *user, include_deleted);
    let mut out: Vec<DocumentPath> = Vec::new();
    let mut i: usize = 0;
    while i < docs.len()
        invariant
            0 <= i <= docs@.len(),
            f == filter_of(*type_code, *department, *section, *task, *user, include_deleted),
            out@ == selection(f, docs@.subrange(0, i as int)),
        decreases docs@.len() - i,
    {
        let ghost prefix = docs@.subrange(0, i as int + 1);
        assert(prefix.drop_last() =~= docs@.subrange(0, i as int));
        assert(prefix.last() == docs@[i as int]);
        if meets(type_code, department, section, task, user, include_deleted, &docs[i]) {
            out.push(docs[i].duplicate());
        }
        i = i + 1;
    }
    assert(docs@.subrange(0, i as int) =~= docs@);
    out
}

/// A query over documents, built one criterion at a time.
pub struct DocumentQueryBuilder {
    type_code: Option<TypeCode>,
    department: Option<DeptCode>,
    section: Option<SectionCode>,
    task: Option<TaskId>,
    include_deleted: bool,
}

impl View for DocumentQueryBuilder {
    type V = DocumentFilter;

    closed spec fn view(&self) -> DocumentFilter {
        filter_of(self.type_code, self.department, self.section, self.task, None, self.include_deleted)
    }
}

impl DocumentQueryBuilder {
    /// A query with no criterion, leaving deleted documents out.
    pub fn new() -> (r: Self)
        ensures
            r@ == no_criteria(),
    {
        DocumentQueryBuilder { type_code: None, department: None, section: None, task: None, include_deleted: false }
    }

    /// Only documents of type `code`.
    pub fn type_code(self, code: TypeCode) -> (r: Self)
        ensures
            r@ == (DocumentFilter { type_code: Some(code.0@), ..self@ }),
    {
        let mut q = self;
        q.type_code = Some(code);
        q
    }

    /// Only documents of department `dept`.
    pub fn department(self, dept: DeptCode) -> (r: Self)
        ensures
            r@ == (DocumentFilter { department: Some(dept.0), ..self@ }),
    {
        let mut q = self;
        q.department = Some(dept);
        q
    }

    /// Only documents of section `sec`.
    pub fn section(self, sec: SectionCode) -> (r: Self)
        ensures
            r@ == (DocumentFilter { section: Some(sec.0), ..self@ }),
    {
        let mut q = self;
        q.section = Some(sec);
        q
    }

    /// Only documents tied to task `task_id`.
    pub fn task(self, task_id: TaskId) -> (r: Self)
        ensures
            r@ == (DocumentFilter { task: Some(task_id.0@), ..self@ }),
    {
        let mut q = self;
        q.task = Some(task_id);
        q
    }

    /// Whether deleted documents are kept.
    pub fn include_deleted(self, with_deleted: bool) -> (r: Self)
        ensures
            r@ == (DocumentFilter { include_deleted: with_deleted, ..self@ }),
    {
        let mut q = self;
        q.include_deleted = with_deleted;
        q
    }

    /// Copies of the documents of `docs` that the query selects, in order.
    pub fn select(&self, docs: &Vec<DocumentPath>) -> (r: Vec<DocumentPath>)
        ensures
            r@ == selection(self@, docs@),
    {
        select_documents(&self.type_code, &self.department, &self.section, &self.task, &None, self.include_deleted, docs)
    }
}

impl Default for DocumentQueryBuilder {
    fn default() -> (r: Self)
        ensures
            r@ == no_criteria(),
    {
        Self::new()
    }
}

/// A query over documents that may also name the user who registered them.
pub struct DocumentQuery {
    type_code: Option<TypeCode>,
    department: Option<DeptCode>,
    section: Option<SectionCode>,
    task: Option<TaskId>,
    user: Option<UserId>,
    include_deleted: bool,
}

impl View for DocumentQuery {
    type V = DocumentFilter;

    closed spec fn view(&self) -> DocumentFilter {
        filter_of(self.type_code, self.department, self.section, self.task, self.user, self.include_deleted)
    }
}

impl DocumentQuery {
    /// A query with no criterion, leaving deleted documents out.
    pub fn new() -> (r: Self)
        ensures
            r@ == no_criteria(),
    {
        DocumentQuery {
            type_code: None,
            department: None,
            section: None,
            task: None,
            user: None,
            include_deleted: false,
        }
    }

    /// Only documents of type `code`.
    pub fn type_code(self, code: TypeCode) -> (r: Self)
        ensures
            r@ == (DocumentFilter { type_code: Some(code.0@), ..self@ }),
    {
        let mut q = self;
        q.type_code = Some(code);
        q
    }

    /// Only documents of department `dept`.
    pub fn department(self, dept: DeptCode) -> (r: Self)
        ensures
            r@ == (DocumentFilter { department: Some(dept.0), ..self@ }),
    {
        let mut q = self;
        q.department = Some(dept);
        q
    }

    /// Only documents of section `sec`.
    pub fn section(self, sec: SectionCode) -> (r: Self)
        ensures
            r@ == (DocumentFilter { section: Some(sec.0), ..self@ }),
    {
        let mut q = self;
        q.section = Some(sec);
        q
    }

    /// Only documents tied to task `task_id`.
    pub fn task(self, task_id: TaskId) -> (r: Self)
        ensures
            r@ == (DocumentFilter { task: Some(task_id.0@), ..self@ }),
    {
        let mut q = self;
        q.task = Some(task_id);
        q
    }

    /// Only documents registered by `user_id`.
    pub fn user(self, user_id: UserId) -> (r: Self)
        ensures
            r@ == (DocumentFilter { user: Some(user_id.0@), ..self@ }),
    {
        let mut q = self;
        q.user = Some(user_id);
        q
    }

    /// Whether deleted documents are kept.
    pub fn include_deleted(self, with_deleted: bool) -> (r: Self)
        ensures
            r@ == (DocumentFilter { include_deleted: with_deleted, ..self@ }),
    {
        let mut q = self;
        q.include_deleted = with_deleted;
        q
    }

    /// Copies of the documents of `docs` that the query selects, in order.
    pub fn select(&self, docs: &Vec<DocumentPath>) -> (r: Vec<DocumentPath>)
        ensures
            r@ == selection(self@, docs@),
    {
        select_documents(&self.type_code, &self.department, &self.section, &self.task, &self.user, self.include_deleted, docs)
    }
}

impl Default for DocumentQuery {
    fn default() -> (r: Self)
        ensures
            r@ == no_criteria(),
    {
        Self::new()
    }
}

} // verus!
