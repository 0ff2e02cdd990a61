use chrono::Datelike;
use document_path_db::codes::{DeptCode, SectionCode, TypeCode};
use document_path_db::counter::{next_counter_value, CounterStore};
use document_path_db::error::Error;
use document_path_db::generation::{generate_document_number, generate_document_number_on, CalendarDate};
use document_path_db::render::{check_renderable, join_parts, render_component, render_document_number, render_parts, GenerationContext};
use document_path_db::rule::{CounterScope, PathGenerationRule, RuleComponent};
use document_path_db::scope::build_scope_key;

fn context(type_code: &str, dept: char, section: char, year: i32, month: u32, day: u32) -> GenerationContext {
    GenerationContext {
        type_code: TypeCode::new(type_code),
        dept_code: DeptCode::new(dept),
        section_code: SectionCode::new(section),
        year,
        month,
        day,
    }
}

fn strings(parts: &[&str]) -> Vec<String> {
    parts.iter().map(|p| p.to_string()).collect()
}

#[test]
fn test_build_scope_key_type_only() {
    let rule = PathGenerationRule::new(
        vec![RuleComponent::TypeName, RuleComponent::AutoIncrement],
        CounterScope::TypeOnly,
        3,
    )
    .unwrap();
    let type_code = TypeCode::new("A");
    let dept_code = DeptCode::new('G');
    let section_code = SectionCode::new('I');

    let key = build_scope_key(&rule, &type_code, &dept_code, &section_code, 2025, 10);
    assert_eq!(key, "A");
}

#[test]
fn test_build_scope_key_type_and_year() {
    let rule = PathGenerationRule::new(
        vec![RuleComponent::TypeName, RuleComponent::Year { digits: 2 }, RuleComponent::AutoIncrement],
        CounterScope::TypeAndYear,
        3,
    )
    .unwrap();
    let type_code = TypeCode::new("A");
    let dept_code = DeptCode::new('G');
    let section_code = SectionCode::new('I');

    let key = build_scope_key(&rule, &type_code, &dept_code, &section_code, 2025, 10);
    assert_eq!(key, "A_2025");
}

#[test]
fn test_build_scope_key_full() {
    let rule = PathGenerationRule::example_agi();
    let type_code = TypeCode::new("A");
    let dept_code = DeptCode::new('G');
    let section_code = SectionCode::new('I');

    let key = build_scope_key(&rule, &type_code, &dept_code, &section_code, 2025, 9);
    assert_eq!(key, "A_G_I_2025_09");
}

#[test]
fn build_scope_key_type_section_year() {
    let rule = PathGenerationRule::example_ringi();
    let key = build_scope_key(
        &rule,
        &TypeCode::new("りん議"),
        &DeptCode::new('G'),
        &SectionCode::new('I'),
        2025,
        9,
    );
    assert_eq!(key, "りん議_I_2025");
}

#[test]
fn build_scope_key_pads_year_to_four_digits() {
    let rule = PathGenerationRule::new(vec![RuleComponent::AutoIncrement], CounterScope::TypeAndYear, 3).unwrap();
    let key = build_scope_key(&rule, &TypeCode::new("A"), &DeptCode::new('G'), &SectionCode::new('I'), 987, 1);
    assert_eq!(key, "A_0987");
    let rule = PathGenerationRule::example_ringi();
    let key = build_scope_key(&rule, &TypeCode::new("B"), &DeptCode::new('G'), &SectionCode::new('T'), 42, 1);
    assert_eq!(key, "B_T_0042");
}

#[test]
fn build_scope_key_full_pads_small_year() {
    let rule = PathGenerationRule::example_agi();
    let key = build_scope_key(&rule, &TypeCode::new("A"), &DeptCode::new('G'), &SectionCode::new('I'), 987, 12);
    assert_eq!(key, "A_G_I_0987_12");
}

#[test]
fn render_year_two_and_four_digits() {
    let ctx = context("A", 'G', 'I', 2025, 9, 3);
    assert_eq!(render_component(RuleComponent::Year { digits: 2 }, &ctx, 1, 3).unwrap(), "25");
    assert_eq!(render_component(RuleComponent::Year { digits: 4 }, &ctx, 1, 3).unwrap(), "2025");
}

#[test]
fn render_year_small_and_negative() {
    let ctx = context("A", 'G', 'I', 5, 1, 1);
    assert_eq!(render_component(RuleComponent::Year { digits: 2 }, &ctx, 1, 3).unwrap(), "05");
    assert_eq!(render_component(RuleComponent::Year { digits: 4 }, &ctx, 1, 3).unwrap(), "0005");
    let ctx = context("A", 'G', 'I', -2025, 1, 1);
    assert_eq!(render_component(RuleComponent::Year { digits: 2 }, &ctx, 1, 3).unwrap(), "-25");
    assert_eq!(render_component(RuleComponent::Year { digits: 4 }, &ctx, 1, 3).unwrap(), "-2025");
}

#[test]
fn render_year_with_other_width_is_refused() {
    let ctx = context("A", 'G', 'I', 2025, 9, 3);
    assert_eq!(
        render_component(RuleComponent::Year { digits: 3 }, &ctx, 1, 3),
        Err(Error::InvalidRuleComponent("Year{digits:3}".to_string()))
    );
}

#[test]
fn render_month_and_day_two_digits() {
    let ctx = context("A", 'G', 'I', 2025, 9, 9);
    assert_eq!(render_component(RuleComponent::Month, &ctx, 1, 3).unwrap(), "09");
    assert_eq!(render_component(RuleComponent::Day, &ctx, 1, 3).unwrap(), "09");
    let ctx = context("A", 'G', 'I', 2025, 12, 31);
    assert_eq!(render_component(RuleComponent::Month, &ctx, 1, 3).unwrap(), "12");
    assert_eq!(render_component(RuleComponent::Day, &ctx, 1, 3).unwrap(), "31");
}

#[test]
fn render_counter_padded_not_truncated() {
    let ctx = context("A", 'G', 'I', 2025, 9, 9);
    assert_eq!(render_component(RuleComponent::AutoIncrement, &ctx, 1, 3).unwrap(), "001");
    assert_eq!(render_component(RuleComponent::AutoIncrement, &ctx, 1000, 3).unwrap(), "1000");
    assert_eq!(render_component(RuleComponent::AutoIncrement, &ctx, 0, 1).unwrap(), "0");
    assert_eq!(render_component(RuleComponent::AutoIncrement, &ctx, i64::MAX, 3).unwrap(), i64::MAX.to_string());
}

#[test]
fn render_codes_verbatim() {
    let ctx = context("りん議", 'G', 'I', 2025, 9, 9);
    assert_eq!(render_component(RuleComponent::TypeName, &ctx, 1, 3).unwrap(), "りん議");
    assert_eq!(render_component(RuleComponent::DeptCode, &ctx, 1, 3).unwrap(), "G");
    assert_eq!(render_component(RuleComponent::SectionCode, &ctx, 1, 3).unwrap(), "I");
}

#[test]
fn join_without_separators() {
    let parts = strings(&["A", "G", "I", "25", "09", "001"]);
    assert_eq!(join_parts(&parts, &vec![]), "AGI2509001");
}

#[test]
fn join_with_one_separator() {
    let parts = strings(&["りん議", "I", "25", "009"]);
    assert_eq!(join_parts(&parts, &strings(&["-"])), "りん議-I-25-009");
}

#[test]
fn join_with_separator_list_repeats_last() {
    let parts = strings(&["a", "b", "c", "d"]);
    assert_eq!(join_parts(&parts, &strings(&["/", "."])), "a/b.c.d");
    assert_eq!(join_parts(&parts, &strings(&["1", "2", "3"])), "a1b2c3d");
    assert_eq!(join_parts(&strings(&["x"]), &strings(&["-"])), "x");
    assert_eq!(join_parts(&vec![], &strings(&["-"])), "");
}

#[test]
fn render_parts_in_order() {
    let rule = PathGenerationRule::example_agi();
    let ctx = context("A", 'G', 'I', 2025, 9, 3);
    assert_eq!(render_parts(&rule, &ctx, 1).unwrap(), strings(&["A", "G", "I", "25", "09", "001"]));
}

#[test]
fn render_document_number_ringi() {
    let rule = PathGenerationRule::example_ringi();
    let ctx = context("りん議", 'G', 'I', 2025, 9, 3);
    let number = render_document_number(&rule, &ctx, 9).unwrap();
    assert_eq!(number, "りん議-I-25-009");
    assert_eq!(number.chars().count(), 12);
    assert!(number.starts_with("りん議"));
}

#[test]
fn render_document_number_refuses_bad_year() {
    let rule = PathGenerationRule::new(
        vec![RuleComponent::TypeName, RuleComponent::Year { digits: 1 }, RuleComponent::AutoIncrement],
        CounterScope::TypeOnly,
        3,
    )
    .unwrap();
    let ctx = context("A", 'G', 'I', 2025, 9, 3);
    assert!(matches!(render_document_number(&rule, &ctx, 1), Err(Error::InvalidRuleComponent(_))));
}

#[test]
fn test_get_next_counter_initializes_at_1() {
    let mut store = CounterStore::new();
    assert_eq!(store.get_next("test_scope"), Ok(1));
}

#[test]
fn counter_test_get_next_counter_increments() {
    let mut store = CounterStore::new();
    assert_eq!(store.get_next("test_scope"), Ok(1));
    assert_eq!(store.get_next("test_scope"), Ok(2));
    assert_eq!(store.get_next("test_scope"), Ok(3));
}

#[test]
fn counter_sequence_has_no_gap() {
    let mut store = CounterStore::new();
    for expected in 1..=50 {
        assert_eq!(store.get_next("k"), Ok(expected));
    }
}

#[test]
fn test_get_current_counter() {
    let mut store = CounterStore::new();
    assert!(store.peek("test_scope").is_none());
    store.get_next("test_scope").unwrap();
    assert_eq!(store.peek("test_scope"), Some(1));
}

#[test]
fn test_reset_counter() {
    let mut store = CounterStore::new();
    store.get_next("test_scope").unwrap();
    store.get_next("test_scope").unwrap();
    store.reset("test_scope", 10);
    assert_eq!(store.peek("test_scope"), Some(10));
    assert_eq!(store.get_next("test_scope"), Ok(11));
}

#[test]
fn test_different_scopes_independent() {
    let mut store = CounterStore::new();
    assert_eq!(store.get_next("scope_a"), Ok(1));
    assert_eq!(store.get_next("scope_b"), Ok(1));
    assert_eq!(store.get_next("scope_a"), Ok(2));
}

#[test]
fn test_list_counters() {
    let mut store = CounterStore::new();
    store.get_next("scope_a").unwrap();
    store.get_next("scope_b").unwrap();
    store.get_next("scope_b").unwrap();
    let counters = store.list_all();
    assert_eq!(counters.len(), 2);
    assert!(counters.contains(&("scope_a".to_string(), 1)));
    assert!(counters.contains(&("scope_b".to_string(), 2)));
}

#[test]
fn list_counters_sorted_by_scope_key() {
    let mut store = CounterStore::new();
    for key in ["m", "b", "りん議_I_2025", "a_2", "a", "z", "a_10"] {
        store.get_next(key).unwrap();
    }
    store.get_next("b").unwrap();
    store.reset("c", 7);
    let keys: Vec<String> = store.list_all().into_iter().map(|(k, _)| k).collect();
    let mut sorted = keys.clone();
    sorted.sort();
    assert_eq!(keys, sorted);
    assert_eq!(keys, vec!["a", "a_10", "a_2", "b", "c", "m", "z", "りん議_I_2025"]);
    assert_eq!(store.peek("b"), Some(2));
    store.delete("m");
    assert_eq!(store.list_all().len(), 7);
    assert_eq!(store.get_next("m"), Ok(1));
    assert_eq!(store.list_all()[5], ("m".to_string(), 1));
}

#[test]
fn counter_delete_starts_over() {
    let mut store = CounterStore::new();
    store.get_next("k").unwrap();
    store.get_next("k").unwrap();
    store.delete("k");
    assert_eq!(store.peek("k"), None);
    assert_eq!(store.get_next("k"), Ok(1));
    store.delete("absent");
    assert_eq!(store.list_all().len(), 1);
}

#[test]
fn counter_at_largest_value_is_refused() {
    let mut store = CounterStore::new();
    store.reset("k", i64::MAX);
    assert!(matches!(store.get_next("k"), Err(Error::CounterPersistenceFailure(_))));
    assert_eq!(store.peek("k"), Some(i64::MAX));
}

#[test]
fn next_counter_value_steps() {
    assert_eq!(next_counter_value(None), Some(1));
    assert_eq!(next_counter_value(Some(41)), Some(42));
    assert_eq!(next_counter_value(Some(i64::MAX)), None);
}

#[test]
fn generate_agi_first_and_second() {
    let mut store = CounterStore::new();
    let rule = PathGenerationRule::example_agi();
    let date = CalendarDate { year: 2025, month: 9, day: 17 };
    let (t, d, s) = (TypeCode::new("A"), DeptCode::new('G'), SectionCode::new('I'));
    assert_eq!(generate_document_number_on(&mut store, &rule, &t, &d, &s, date).unwrap(), "AGI2509001");
    assert_eq!(generate_document_number_on(&mut store, &rule, &t, &d, &s, date).unwrap(), "AGI2509002");
    assert_eq!(store.peek("A_G_I_2025_09"), Some(2));
}

#[test]
fn generate_ringi_ninth() {
    let mut store = CounterStore::new();
    store.reset("りん議_I_2025", 8);
    let rule = PathGenerationRule::example_ringi();
    let date = CalendarDate { year: 2025, month: 9, day: 17 };
    let number = generate_document_number_on(
        &mut store,
        &rule,
        &TypeCode::new("りん議"),
        &DeptCode::new('G'),
        &SectionCode::new('I'),
        date,
    )
    .unwrap();
    assert_eq!(number, "りん議-I-25-009");
}

#[test]
fn generate_new_month_starts_new_counter() {
    let mut store = CounterStore::new();
    let rule = PathGenerationRule::example_agi();
    let (t, d, s) = (TypeCode::new("A"), DeptCode::new('G'), SectionCode::new('I'));
    let sept = CalendarDate { year: 2025, month: 9, day: 30 };
    let oct = CalendarDate { year: 2025, month: 10, day: 1 };
    assert_eq!(generate_document_number_on(&mut store, &rule, &t, &d, &s, sept).unwrap(), "AGI2509001");
    assert_eq!(generate_document_number_on(&mut store, &rule, &t, &d, &s, oct).unwrap(), "AGI2510001");
}

#[test]
fn generate_with_bad_rule_keeps_counter() {
    let mut store = CounterStore::new();
    let rule = PathGenerationRule::new(
        vec![RuleComponent::TypeName, RuleComponent::Year { digits: 3 }, RuleComponent::AutoIncrement],
        CounterScope::TypeOnly,
        3,
    )
    .unwrap();
    let date = CalendarDate { year: 2025, month: 9, day: 17 };
    let r = generate_document_number_on(
        &mut store,
        &rule,
        &TypeCode::new("A"),
        &DeptCode::new('G'),
        &SectionCode::new('I'),
        date,
    );
    assert!(matches!(r, Err(Error::InvalidRuleComponent(_))));
    assert_eq!(store.peek("A"), None);
}

#[test]
fn generate_today_uses_current_date() {
    let mut store = CounterStore::new();
    let rule = PathGenerationRule::example_agi();
    let now = chrono::Utc::now();
    let number = generate_document_number(
        &mut store,
        &rule,
        &TypeCode::new("A"),
        &DeptCode::new('G'),
        &SectionCode::new('I'),
    )
    .unwrap();
    let expected = format!("AGI{:02}{:02}001", now.year() % 100, now.month());
    assert_eq!(number, expected);
}

#[test]
fn check_renderable_accepts_two_and_four_digit_years() {
    assert_eq!(check_renderable(&PathGenerationRule::example_agi()), Ok(()));
    let rule = PathGenerationRule::new(
        vec![RuleComponent::Year { digits: 4 }, RuleComponent::Day, RuleComponent::AutoIncrement],
        CounterScope::TypeAndYear,
        2,
    )
    .unwrap();
    assert_eq!(check_renderable(&rule), Ok(()));
    let bad = rule.with_separators(vec![]);
    let bad = PathGenerationRule { components: vec![RuleComponent::Year { digits: 0 }], ..bad };
    assert_eq!(check_renderable(&bad), Err(Error::InvalidRuleComponent("Year{digits:0}".to_string())));
}
