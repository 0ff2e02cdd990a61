//! The rule model: how a document number is assembled from components,
//! separators and a counter scope.

use vstd::prelude::*;
use vstd::string::*;
use crate::error::Error;

verus! {

/// One piece of a document number.
#[derive(Debug, Clone, Copy, PartialEq, Eq, Structural)]
pub enum RuleComponent {
    /// The document type code, verbatim.
    TypeName,
    /// The department code.
    DeptCode,
    /// The section code.
    SectionCode,
    /// The year, in 2 or 4 digits.
    Year { digits: u8 },
    /// The month, in 2 digits.
    Month,
    /// The day of the month, in 2 digits.
    Day,
    /// The counter value, zero-padded to the rule's counter width.
    AutoIncrement,
}

/// Which contextual dimensions partition the counter.
#[derive(Debug, Clone, Copy, PartialEq, Eq, Structural)]
pub enum CounterScope {
    /// One counter per type.
    TypeOnly,
    /// One counter per type and year.
    TypeAndYear,
    /// One counter per type, section and year.
    TypeSectionYear,
    /// One counter per type, department, section, year and month.
    TypeDeptSectionYearMonth,
}

/// A template for document numbers.
#[derive(Debug, Clone, PartialEq, Eq)]
pub struct PathGenerationRule {
    /// Identifier assigned by the store, if any.
    pub id: Option<i64>,
    /// The components, in the order they are rendered.
    pub components: Vec<RuleComponent>,
    /// Separators between components: none, one used between every pair,
    /// or one per gap (the last repeats once the list runs out).
    pub separators: Vec<String>,
    /// What partitions the counter.
    pub counter_scope: CounterScope,
    /// Minimum width of the rendered counter.
    pub counter_digits: u8,
}

/// The characters of each string of a sequence.
pub open spec fn strings_view(v: Seq<String>) -> Seq<Seq<char>> {
    v.map_values(|s: String| s@)
}

impl PathGenerationRule {
    /// What construction demands of a rule: at least one component and a
    /// counter width of at least one digit.
    pub open spec fn wf(&self) -> bool {
        self.components@.len() > 0 && self.counter_digits >= 1
    }

    /// A rule from its components, counter scope and counter width, with
    /// no separators; an empty component list or a zero width is refused.
    pub fn new(components: Vec<RuleComponent>, counter_scope: CounterScope, counter_digits: u8) -> (r:
        Result<Self, Error>)
        ensures
            r is Ok <==> (components@.len() > 0 && counter_digits >= 1),
            r is Err ==> r->Err_0 is InvalidRule,
            r matches Ok(rule) ==> {
                &&& rule.wf()
                &&& rule.id is None
                &&& rule.components@ == components@
                &&& rule.separators@.len() == 0
                &&& rule.counter_scope == counter_scope
                &&& rule.counter_digits == counter_digits
            },
    {
        if components.len() == 0 {
            return Err(Error::InvalidRule(String::from_str("a rule needs at least one component")));
        }
        if counter_digits == 0 {
            return Err(Error::InvalidRule(String::from_str("the counter needs at least one digit")));
        }
        Ok(PathGenerationRule {
            id: None,
            components,
            separators: Vec::new(),
            counter_scope,
            counter_digits,
        })
    }

    /// The same rule with `separators` in place of its separators.
    pub fn with_separators(self, separators: Vec<String>) -> (r: Self)
        ensures
            r.separators@ == separators@,
            r.id == self.id,
            r.components@ == self.components@,
            r.counter_scope == self.counter_scope,
            r.counter_digits == self.counter_digits,
    {
        let mut rule = self;
        rule.separators = separators;
        rule
    }

    /// `AGI[YY][MM][NNN]`: type, department, section, two-digit year,
    /// month and a three-digit counter, per type, department, section,
    /// year and month.
    pub fn example_agi() -> (r: Self)
        ensures
            r.wf(),
            r.id is None,
            r.components@ == seq![
                RuleComponent::TypeName,
                RuleComponent::DeptCode,
                RuleComponent::SectionCode,
                RuleComponent::Year { digits: 2 },
                RuleComponent::Month,
                RuleComponent::AutoIncrement,
            ],
            r.separators@.len() == 0,
            r.counter_scope == CounterScope::TypeDeptSectionYearMonth,
            r.counter_digits == 3,
    {
        let components = vec![
            RuleComponent::TypeName,
            RuleComponent::DeptCode,
            RuleComponent::SectionCode,
            RuleComponent::Year { digits: 2 },
            RuleComponent::Month,
            RuleComponent::AutoIncrement,
        ];
        let r = PathGenerationRule {
            id: None,
            components,
            separators: Vec::new(),
            counter_scope: CounterScope::TypeDeptSectionYearMonth,
            counter_digits: 3,
        };
        assert(r.components@ =~= seq![
            RuleComponent::TypeName,
            RuleComponent::DeptCode,
            RuleComponent::SectionCode,
            RuleComponent::Year { digits: 2 },
            RuleComponent::Month,
            RuleComponent::AutoIncrement,
        ]);
        r
    }

    /// `[type]-[section]-[YY]-[NNN]`: type, section, two-digit year and a
    /// three-digit counter, each gap filled with `-`; one counter per type,
    /// section and year.
    pub fn example_ringi() -> (r: Self)
        ensures
            r.wf(),
            r.id is None,
            r.components@ == seq![
                RuleComponent::TypeName,
                RuleComponent::SectionCode,
                RuleComponent::Year { digits: 2 },
                RuleComponent::AutoIncrement,
            ],
            strings_view(r.separators@) == seq!["-"@],
            r.counter_scope == CounterScope::TypeSectionYear,
            r.counter_digits == 3,
    {
        let components = vec![
            RuleComponent::TypeName,
            RuleComponent::SectionCode,
            RuleComponent::Year { digits: 2 },
            RuleComponent::AutoIncrement,
        ];
        let separators = vec![String::from_str("-")];
        let r = PathGenerationRule {
            id: None,
            components,
            separators,
            counter_scope: CounterScope::TypeSectionYear,
            counter_digits: 3,
        };
        assert(r.components@ =~= seq![
            RuleComponent::TypeName,
            RuleComponent::SectionCode,
            RuleComponent::Year { digits: 2 },
            RuleComponent::AutoIncrement,
        ]);
        assert(strings_view(r.separators@) =~= seq!["-"@]);
        r
    }
}

} // verus!
