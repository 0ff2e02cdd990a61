//! The number renderer: each rule component to its text, and the texts
//! joined under the rule's separator policy.

use vstd::prelude::*;
use vstd::string::*;
use crate::codes::{DeptCode, SectionCode, TypeCode};
use crate::decimal::{decimal, lemma_decimal_digits, lemma_decimal_len_below_100, lemma_zero_padded_keeps_digits, signed_padded, write_decimal, write_signed_padded, write_zero_padded, zero_padded};
use crate::error::Error;
use crate::rule::{strings_view, PathGenerationRule, RuleComponent};

verus! {

/// The values a number is rendered from, fixed at the moment of generation.
#[derive(Debug, Clone, PartialEq, Eq)]
pub struct GenerationContext {
    pub type_code: TypeCode,
    pub dept_code: DeptCode,
    pub section_code: SectionCode,
    pub year: i32,
    pub month: u32,
    pub day: u32,
}

/// `year % 100` with Rust's truncating remainder: the sign follows the year.
pub open spec fn two_digit_year(year: int) -> int {
    if year >= 0 {
        year % 100
    } else {
        -((-year) % 100)
    }
}

/// Whether the renderer can interpret `c`: a year has 2 or 4 digits.
pub open spec fn component_is_renderable(c: RuleComponent) -> bool {
    match c {
        RuleComponent::Year { digits } => digits == 2 || digits == 4,
        _ => true,
    }
}

/// The text of one component, given the context, the counter value and the
/// counter width.
pub open spec fn component_text(c: RuleComponent, ctx: GenerationContext, counter: int, width: nat) -> Seq<
    char,
> {
    match c {
        RuleComponent::TypeName => ctx.type_code.0@,
        RuleComponent::DeptCode => seq![ctx.dept_code.0],
        RuleComponent::SectionCode => seq![ctx.section_code.0],
        RuleComponent::Year { digits } => {
            if digits == 2 {
                signed_padded(two_digit_year(ctx.year as int), 2)
            } else {
                signed_padded(ctx.year as int, 4)
            }
        },
        RuleComponent::Month => zero_padded(ctx.month as nat, 2),
        RuleComponent::Day => zero_padded(ctx.day as nat, 2),
        RuleComponent::AutoIncrement => signed_padded(counter, width),
    }
}

/// Every component of the rule can be rendered.
pub open spec fn rule_is_renderable(rule: PathGenerationRule) -> bool {
    forall|i: int| 0 <= i < rule.components@.len() ==> component_is_renderable(#[trigger] rule.components@[i])
}

/// The texts of the rule's components, in order.
pub open spec fn rendered_parts(rule: PathGenerationRule, ctx: GenerationContext, counter: int) -> Seq<Seq<char>> {
    rule.components@.map_values(|c: RuleComponent| component_text(c, ctx, counter, rule.counter_digits as nat))
}

/// The separator for the gap after part `i`: nothing when there are no
/// separators, else `seps[min(i, seps.len() - 1)]`.
pub open spec fn gap_separator(seps: Seq<Seq<char>>, i: int) -> Seq<char> {
    if seps.len() == 0 {
        Seq::empty()
    } else if i < seps.len() - 1 {
        seps[i]
    } else {
        seps[seps.len() - 1]
    }
}

/// The first `k` parts, each gap filled with its separator.
pub open spec fn join_prefix(parts: Seq<Seq<char>>, seps: Seq<Seq<char>>, k: nat) -> Seq<char>
    decreases k,
{
    if k == 0 {
        Seq::empty()
    } else if k == 1 {
        parts[0]
    } else {
        join_prefix(parts, seps, (k - 1) as nat) + gap_separator(seps, k - 2) + parts[k - 1]
    }
}

/// All parts, each gap filled with its separator.
pub open spec fn assemble(parts: Seq<Seq<char>>, seps: Seq<Seq<char>>) -> Seq<char> {
    join_prefix(parts, seps, parts.len())
}

/// The document number that `rule` gives in `ctx` with counter value `counter`.
pub open spec fn document_number(rule: PathGenerationRule, ctx: GenerationContext, counter: int) -> Seq<char> {
    assemble(rendered_parts(rule, ctx, counter), strings_view(rule.separators@))
}

/// A month or a day (any value below 100) renders as exactly two digits.
pub proof fn lemma_month_day_two_digits(ctx: GenerationContext, counter: int, width: nat)
    requires
        ctx.month < 100,
        ctx.day < 100,
    ensures
        component_text(RuleComponent::Month, ctx, counter, width).len() == 2,
        component_text(RuleComponent::Day, ctx, counter, width).len() == 2,
        forall|i: int|
            0 <= i < 2 ==> '0' <= #[trigger] component_text(RuleComponent::Month, ctx, counter, width)[i] <= '9',
        forall|i: int|
            0 <= i < 2 ==> '0' <= #[trigger] component_text(RuleComponent::Day, ctx, counter, width)[i] <= '9',
{
    lemma_decimal_len_below_100(ctx.month as nat);
    lemma_decimal_len_below_100(ctx.day as nat);
    lemma_decimal_digits(ctx.month as nat);
    lemma_decimal_digits(ctx.day as nat);
    let m = decimal(ctx.month as nat);
    let d = decimal(ctx.day as nat);
    assert forall|i: int| 0 <= i < 2 implies '0' <= #[trigger] component_text(RuleComponent::Month, ctx, counter, width)[i]
        <= '9' by {
        if m.len() < 2 && i == 1 {
            assert(m[0] == component_text(RuleComponent::Month, ctx, counter, width)[i]);
        }
    }
    assert forall|i: int| 0 <= i < 2 implies '0' <= #[trigger] component_text(RuleComponent::Day, ctx, counter, width)[i]
        <= '9' by {
        if d.len() < 2 && i == 1 {
            assert(d[0] == component_text(RuleComponent::Day, ctx, counter, width)[i]);
        }
    }
}

/// The counter is never truncated: a non-negative counter value renders as
/// the wider of the counter width and its digits, ending with all of them.
pub proof fn lemma_counter_not_truncated(ctx: GenerationContext, counter: int, width: nat)
    requires
        counter >= 0,
    ensures
        ({
            let t = component_text(RuleComponent::AutoIncrement, ctx, counter, width);
            let d = decimal(counter as nat);
            &&& t.len() == if d.len() < width {
                width
            } else {
                d.len()
            }
            &&& t.subrange(t.len() - d.len(), t.len() as int) == d
        }),
{
    lemma_zero_padded_keeps_digits(counter as nat, width);
}

proof fn lemma_join_starts_with_first(parts: Seq<Seq<char>>, seps: Seq<Seq<char>>, k: nat)
    requires
        1 <= k <= parts.len(),
    ensures
        join_prefix(parts, seps, k).len() >= parts[0].len(),
        join_prefix(parts, seps, k).subrange(0, parts[0].len() as int) == parts[0],
    decreases k,
{
    let l = parts[0].len() as int;
    if k > 1 {
        lemma_join_starts_with_first(parts, seps, (k - 1) as nat);
        let p = join_prefix(parts, seps, (k - 1) as nat);
        assert((p + gap_separator(seps, k - 2) + parts[k - 1]).subrange(0, l) =~= p.subrange(0, l));
    } else {
        assert(parts[0].subrange(0, l) =~= parts[0]);
    }
}

/// A type code, multi-byte or not, passes through rendering character for
/// character: when a rule begins with the type name, the number begins with
/// exactly the characters of the type code.
pub proof fn lemma_type_code_kept(rule: PathGenerationRule, ctx: GenerationContext, counter: int)
    requires
        rule.components@.len() > 0,
        rule.components@[0] == RuleComponent::TypeName,
    ensures
        document_number(rule, ctx, counter).len() >= ctx.type_code.0@.len(),
        document_number(rule, ctx, counter).subrange(0, ctx.type_code.0@.len() as int) == ctx.type_code.0@,
{
    let parts = rendered_parts(rule, ctx, counter);
    assert(parts[0] == ctx.type_code.0@);
    lemma_join_starts_with_first(parts, strings_view(rule.separators@), parts.len());
}

/// Renders one component; a year of other than 2 or 4 digits is refused.
pub fn render_component(c: RuleComponent, ctx: &GenerationContext, counter_value: i64, counter_digits: u8) -> (r:
    Result<String, Error>)
    ensures
        r is Ok <==> component_is_renderable(c),
        r matches Ok(s) ==> s@ == component_text(c, *ctx, counter_value as int, counter_digits as nat),
        r matches Err(e) ==> e is InvalidRuleComponent,
{
    let mut out = String::new();
    match c {
        RuleComponent::TypeName => {
            out.append(ctx.type_code.0.as_str());
        },
        RuleComponent::DeptCode => {
            out = ctx.dept_code.to_string();
        },
        RuleComponent::SectionCode => {
            out = ctx.section_code.to_string();
        },
        RuleComponent::Year { digits } => {
            let year = ctx.year as i64;
            if digits == 2 {
                let short: i64 = if year >= 0 {
                    year % 100
                } else {
                    -((-year) % 100)
                };
                write_signed_padded(&mut out, short, 2);
            } else if digits == 4 {
                write_signed_padded(&mut out, year, 4);
            } else {
                return Err(invalid_year(digits));
            }
        },
        RuleComponent::Month => {
            write_zero_padded(&mut out, ctx.month as u64, 2);
        },
        RuleComponent::Day => {
            write_zero_padded(&mut out, ctx.day as u64, 2);
        },
        RuleComponent::AutoIncrement => {
            write_signed_padded(&mut out, counter_value, counter_digits as usize);
        },
    }
    assert(out@ =~= component_text(c, *ctx, counter_value as int, counter_digits as nat));
    Ok(out)
}

/// The error for a year component of `digits` digits.
fn invalid_year(digits: u8) -> (e: Error)
    ensures
        e is InvalidRuleComponent,
{
    let mut text = String::new();
    text.append("Year{digits:");
    write_decimal(&mut text, digits as u64);
    text.append("}");
    Error::InvalidRuleComponent(text)
}

/// Accepts a rule whose every component can be rendered; refuses the first
/// one that cannot.
pub fn check_renderable(rule: &PathGenerationRule) -> (r: Result<(), Error>)
    ensures
        r is Ok <==> rule_is_renderable(*rule),
        r matches Err(e) ==> e is InvalidRuleComponent,
{
    let mut i: usize = 0;
    while i < rule.components.len()
        invariant
            0 <= i <= rule.components@.len(),
            forall|j: int| 0 <= j < i ==> component_is_renderable(#[trigger] rule.components@[j]),
        decreases rule.components@.len() - i,
    {
        if let RuleComponent::Year { digits } = rule.components[i] {
            if digits != 2 && digits != 4 {
                return Err(invalid_year(digits));
            }
        }
        i = i + 1;
    }
    Ok(())
}

/// Renders every component of the rule, in order; fails on the first
/// component that cannot be rendered.
pub fn render_parts(rule: &PathGenerationRule, ctx: &GenerationContext, counter_value: i64) -> (r: Result<
    Vec<String>,
    Error,
>)
    ensures
        r is Ok <==> rule_is_renderable(*rule),
        r matches Ok(parts) ==> strings_view(parts@) == rendered_parts(*rule, *ctx, counter_value as int),
        r matches Err(e) ==> e is InvalidRuleComponent,
{
    let mut parts: Vec<String> = Vec::new();
    let mut i: usize = 0;
    while i < rule.components.len()
        invariant
            0 <= i <= rule.components@.len(),
            forall|j: int| 0 <= j < i ==> component_is_renderable(#[trigger] rule.components@[j]),
            strings_view(parts@) == rendered_parts(*rule, *ctx, counter_value as int).subrange(0, i as int),
        decreases rule.components@.len() - i,
    {
        let part = render_component(rule.components[i], ctx, counter_value, rule.counter_digits);
        match part {
            Ok(text) => {
                let ghost before = parts@;
                assert(strings_view(before).len() == before.len());
                assert(before.len() == i);
                let ghost t = text@;
                assert(t == component_text(rule.components@[i as int], *ctx, counter_value as int, rule.counter_digits as nat));
                parts.push(text);
                assert(parts@ == before.push(text));
                assert(parts@[i as int]@ == t);
            },
            Err(e) => {
                return Err(e);
            },
        }
        i = i + 1;
        let ghost all = rendered_parts(*rule, *ctx, counter_value as int);
        assert(all[i - 1] == component_text(rule.components@[i - 1], *ctx, counter_value as int, rule.counter_digits as nat));
        assert(strings_view(parts@) =~= all.subrange(0, i as int));
    }
    assert(rendered_parts(*rule, *ctx, counter_value as int).subrange(0, i as int) =~= rendered_parts(
        *rule,
        *ctx,
        counter_value as int,
    ));
    Ok(parts)
}

/// Joins the parts: directly when there are no separators, else with
/// separator `min(i, separators.len() - 1)` in the gap after part `i`.
pub fn join_parts(parts: &Vec<String>, separators: &Vec<String>) -> (r: String)
    ensures
        r@ == assemble(strings_view(parts@), strings_view(separators@)),
{
    let ghost pv = strings_view(parts@);
    let ghost sv = strings_view(separators@);
    let mut out = String::new();
    let mut i: usize = 0;
    while i < parts.len()
        invariant
            0 <= i <= parts@.len(),
            pv == strings_view(parts@),
            sv == strings_view(separators@),
            out@ == join_prefix(pv, sv, i as nat),
        decreases parts@.len() - i,
    {
        if i > 0 && separators.len() > 0 {
            let k: usize = if i - 1 < separators.len() - 1 {
                i - 1
            } else {
                separators.len() - 1
            };
            out.append(separators[k].as_str());
        }
        out.append(parts[i].as_str());
        i = i + 1;
        assert(out@ =~= join_prefix(pv, sv, i as nat));
    }
    out
}

/// The document number of `rule` in `ctx` with the given counter value;
/// fails exactly when a component cannot be rendered.
pub fn render_document_number(rule: &PathGenerationRule, ctx: &GenerationContext, counter_value: i64) -> (r:
    Result<String, Error>)
    ensures
        r is Ok <==> rule_is_renderable(*rule),
        r matches Ok(s) ==> s@ == document_number(*rule, *ctx, counter_value as int),
        r matches Err(e) ==> e is InvalidRuleComponent,
{
    let parts = render_parts(rule, ctx, counter_value)?;
    Ok(join_parts(&parts, &rule.separators))
}

} // verus!
