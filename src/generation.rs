//! The generation service: the scope key from the rule and the context,
//! the next counter value from the store, and the number from the renderer.

use vstd::prelude::*;
use crate::clock::utc_now;
use crate::codes::{DeptCode, SectionCode, TypeCode};
use crate::counter::{exhausted, next_value, CounterStore};
use crate::error::Error;
use crate::render::{check_renderable, document_number, render_document_number, rule_is_renderable, GenerationContext};
use crate::rule::PathGenerationRule;
use crate::scope::{build_scope_key, scope_key};

verus! {

/// A calendar date.
#[derive(Debug, Clone, Copy, PartialEq, Eq, Structural)]
pub struct CalendarDate {
    pub year: i32,
    pub month: u32,
    pub day: u32,
}

impl CalendarDate {
    /// A month of the year and a day of a month.
    pub open spec fn wf(&self) -> bool {
        &&& 1 <= self.month <= 12
        &&& 1 <= self.day <= 31
    }
}

/// The context a number is rendered in on `date`.
pub open spec fn context_on(
    type_code: TypeCode,
    dept_code: DeptCode,
    section_code: SectionCode,
    date: CalendarDate,
) -> GenerationContext {
    GenerationContext {
        type_code,
        dept_code,
        section_code,
        year: date.year,
        month: date.month,
        day: date.day,
    }
}

/// The scope key of `rule` for these codes on `date`.
pub open spec fn scope_key_on(
    rule: PathGenerationRule,
    type_code: TypeCode,
    dept_code: DeptCode,
    section_code: SectionCode,
    date: CalendarDate,
) -> Seq<char> {
    scope_key(rule.counter_scope, type_code.0@, dept_code.0, section_code.0, date.year as int, date.month as nat)
}

/// What generating a number on `date` does to the counters and returns:
/// a rule that cannot be rendered is refused before any counter moves; a
/// counter at its largest value is refused and nothing changes; otherwise
/// the counter under the scope key moves to its next value and the number
/// is rendered with that value.
pub open spec fn generation_outcome(
    before: Map<Seq<char>, int>,
    after: Map<Seq<char>, int>,
    rule: PathGenerationRule,
    type_code: TypeCode,
    dept_code: DeptCode,
    section_code: SectionCode,
    date: CalendarDate,
    r: Result<String, Error>,
) -> bool {
    let key = scope_key_on(rule, type_code, dept_code, section_code, date);
    let ctx = context_on(type_code, dept_code, section_code, date);
    if !rule_is_renderable(rule) {
        &&& r is Err
        &&& r->Err_0 is InvalidRuleComponent
        &&& after == before
    } else if exhausted(before, key) {
        &&& r is Err
        &&& r->Err_0 is CounterPersistenceFailure
        &&& after == before
    } else {
        &&& after == before.insert(key, next_value(before, key))
        &&& r is Ok
        &&& r->Ok_0@ == document_number(rule, ctx, next_value(before, key))
    }
}

/// Generates the next document number of `rule` for these codes on `date`,
/// drawing the counter value from `store`.
pub fn generate_document_number_on(
    store: &mut CounterStore,
    rule: &PathGenerationRule,
    type_code: &TypeCode,
    dept_code: &DeptCode,
    section_code: &SectionCode,
    date: CalendarDate,
) -> (r: Result<String, Error>)
    requires
        old(store).wf(),
        date.wf(),
    ensures
        final(store).wf(),
        generation_outcome(old(store)@, final(store)@, *rule, *type_code, *dept_code, *section_code, date, r),
{
    let ctx = GenerationContext {
        type_code: TypeCode(type_code.0.clone()),
        dept_code: *dept_code,
        section_code: *section_code,
        year: date.year,
        month: date.month,
        day: date.day,
    };
    // The rule is checked before the counter moves, so that a rule the
    // renderer refuses never consumes a counter value.
    check_renderable(rule)?;
    let key = build_scope_key(rule, type_code, dept_code, section_code, date.year, date.month as u8);
    match store.get_next(key.as_str()) {
        Ok(value) => render_document_number(rule, &ctx, value),
        Err(e) => Err(e),
    }
}

/// Generates the next document number of `rule` for these codes today
/// (UTC), drawing the counter value from `store`.
pub fn generate_document_number(
    store: &mut CounterStore,
    rule: &PathGenerationRule,
    type_code: &TypeCode,
    dept_code: &DeptCode,
    section_code: &SectionCode,
) -> (r: Result<String, Error>)
    requires
        old(store).wf(),
    ensures
        final(store).wf(),
        exists|date: CalendarDate|
            date.wf() && generation_outcome(
                old(store)@,
                final(store)@,
                *rule,
                *type_code,
                *dept_code,
                *section_code,
                date,
                r,
            ),
{
    let date = utc_now().date;
    generate_document_number_on(store, rule, type_code, dept_code, section_code, date)
}

} // verus!
