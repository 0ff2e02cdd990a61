//! The scope key under which a counter is kept.

use vstd::prelude::*;
use vstd::string::*;
use crate::codes::{DeptCode, SectionCode, TypeCode};
use crate::decimal::{push_char, signed_padded, write_signed_padded, write_zero_padded, zero_padded};
use crate::rule::{CounterScope, PathGenerationRule};

verus! {

/// The scope key: which of type, department, section, year and month it
/// holds is decided by the counter scope alone. Parts are joined by `_`;
/// the year is written in full, with at least four digits, and the month
/// with two.
pub open spec fn scope_key(
    scope: CounterScope,
    type_code: Seq<char>,
    dept: char,
    section: char,
    year: int,
    month: nat,
) -> Seq<char> {
    match scope {
        CounterScope::TypeOnly => type_code,
        CounterScope::TypeAndYear => type_code + seq!['_'] + signed_padded(year, 4),
        CounterScope::TypeSectionYear => type_code + seq!['_', section, '_'] + signed_padded(year, 4),
        CounterScope::TypeDeptSectionYearMonth => type_code + seq!['_', dept, '_', section, '_']
            + signed_padded(year, 4) + seq!['_'] + zero_padded(month, 2),
    }
}

/// The key of the counter that `rule` draws from for these values.
pub fn build_scope_key(
    rule: &PathGenerationRule,
    type_code: &TypeCode,
    dept_code: &DeptCode,
    section_code: &SectionCode,
    year: i32,
    month: u8,
) -> (r: String)
    ensures
        r@ == scope_key(rule.counter_scope, type_code.0@, dept_code.0, section_code.0, year as int, month as nat),
{
    let mut key = type_code.0.clone();
    assert(key@ == type_code.0@);
    let ghost t = key@;
    match rule.counter_scope {
        CounterScope::TypeOnly => {},
        CounterScope::TypeAndYear => {
            push_char(&mut key, '_');
            write_signed_padded(&mut key, year as i64, 4);
        },
        CounterScope::TypeSectionYear => {
            push_char(&mut key, '_');
            push_char(&mut key, section_code.0);
            push_char(&mut key, '_');
            write_signed_padded(&mut key, year as i64, 4);
        },
        CounterScope::TypeDeptSectionYearMonth => {
            push_char(&mut key, '_');
            push_char(&mut key, dept_code.0);
            push_char(&mut key, '_');
            push_char(&mut key, section_code.0);
            push_char(&mut key, '_');
            write_signed_padded(&mut key, year as i64, 4);
            push_char(&mut key, '_');
            write_zero_padded(&mut key, month as u64, 2);
        },
    }
    assert(key@ =~= scope_key(
        rule.counter_scope,
        type_code.0@,
        dept_code.0,
        section_code.0,
        year as int,
        month as nat,
    ));
    key
}

} // verus!
