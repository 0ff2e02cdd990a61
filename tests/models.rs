use document_path_db::codes::{DeptCode, SectionCode, TypeCode, UserId};
use document_path_db::document_type::DocumentType;
use document_path_db::organization::{BusinessTask, Department, Section};
use document_path_db::permissions::Permissions;
use document_path_db::rule::{CounterScope, PathGenerationRule, RuleComponent};
use document_path_db::user::User;

#[test]
fn test_business_task_new() {
    let task = BusinessTask::new("task001", "契約書作成");
    assert_eq!(task.id.0, "task001");
    assert_eq!(task.description, "契約書作成");
    assert!(task.department.is_none());
    assert!(task.active);
}

#[test]
fn test_business_task_with_department_and_section() {
    let task = BusinessTask::new("task001", "部門タスク")
        .with_department('G')
        .with_section('I');
    assert_eq!(task.department.unwrap().0, 'G');
    assert_eq!(task.section.unwrap().0, 'I');
}

#[test]
fn test_business_task_inactive() {
    let task = BusinessTask::new("task001", "古いタスク").inactive();
    assert!(!task.active);
}

#[test]
fn test_department_new() {
    let dept = Department::new('G', "総務");
    assert_eq!(dept.code.0, 'G');
    assert_eq!(dept.name, "総務");
    assert!(dept.sections.is_empty());
}

#[test]
fn test_department_add_section() {
    let mut dept = Department::new('G', "総務");
    dept.add_section(SectionCode::new('I'));
    dept.add_section(SectionCode::new('T'));
    assert_eq!(dept.sections.len(), 2);
}

#[test]
fn test_department_with_sections() {
    let dept = Department::new('G', "総務")
        .with_sections(vec![SectionCode::new('I'), SectionCode::new('T')]);
    assert_eq!(dept.sections.len(), 2);
}

#[test]
fn department_add_section_ignores_duplicate() {
    let mut dept = Department::new('G', "総務");
    dept.add_section(SectionCode::new('I'));
    dept.add_section(SectionCode::new('I'));
    assert_eq!(dept.sections, vec![SectionCode::new('I')]);
}

#[test]
fn test_document_type_new() {
    let rule = PathGenerationRule::example_agi();
    let doc_type = DocumentType::new("A", "契約書", "/docs/contracts/", rule);

    assert_eq!(doc_type.code.0, "A");
    assert_eq!(doc_type.description, "契約書");
    assert_eq!(doc_type.root_directory, "/docs/contracts/");
    assert!(doc_type.active);
}

#[test]
fn test_document_type_multibyte_code() {
    let rule = PathGenerationRule::example_ringi();
    let doc_type = DocumentType::new("りん議", "稟議書", "/docs/ringi/", rule);

    assert_eq!(doc_type.code.0, "りん議");
    assert_eq!(doc_type.description, "稟議書");
}

#[test]
fn test_document_type_inactive() {
    let rule = PathGenerationRule::example_agi();
    let doc_type = DocumentType::new("A", "契約書", "/docs/", rule).inactive();
    assert!(!doc_type.active);
}

#[test]
fn test_path_generation_rule_example_agi() {
    let rule = PathGenerationRule::example_agi();
    assert_eq!(rule.components.len(), 6);
    assert_eq!(rule.counter_digits, 3);
    assert!(matches!(rule.counter_scope, CounterScope::TypeDeptSectionYearMonth));
}

#[test]
fn test_path_generation_rule_example_ringi() {
    let rule = PathGenerationRule::example_ringi();
    assert_eq!(rule.components.len(), 4);
    assert_eq!(rule.separators.len(), 1);
    assert_eq!(rule.separators[0], "-");
}

#[test]
fn rule_new_keeps_its_values() {
    let rule = PathGenerationRule::new(
        vec![RuleComponent::TypeName, RuleComponent::AutoIncrement],
        CounterScope::TypeAndYear,
        4,
    )
    .unwrap();
    assert_eq!(rule.id, None);
    assert_eq!(rule.components, vec![RuleComponent::TypeName, RuleComponent::AutoIncrement]);
    assert!(rule.separators.is_empty());
    assert_eq!(rule.counter_scope, CounterScope::TypeAndYear);
    assert_eq!(rule.counter_digits, 4);
}

#[test]
fn rule_new_refuses_empty_components() {
    let r = PathGenerationRule::new(vec![], CounterScope::TypeOnly, 3);
    assert!(matches!(r, Err(document_path_db::error::Error::InvalidRule(_))));
}

#[test]
fn rule_new_refuses_zero_digits() {
    let r = PathGenerationRule::new(vec![RuleComponent::AutoIncrement], CounterScope::TypeOnly, 0);
    assert!(matches!(r, Err(document_path_db::error::Error::InvalidRule(_))));
}

#[test]
fn rule_with_separators_replaces_them() {
    let rule = PathGenerationRule::example_agi().with_separators(vec!["/".to_string(), ".".to_string()]);
    assert_eq!(rule.separators, vec!["/".to_string(), ".".to_string()]);
    assert_eq!(rule.components.len(), 6);
}

#[test]
fn test_dept_code_new() {
    let dept = DeptCode::new('G');
    assert_eq!(dept.0, 'G');
    assert_eq!(dept.to_string(), "G");
}

#[test]
fn test_type_code_multibyte() {
    let type_code = TypeCode::new("りん議");
    assert_eq!(type_code.0, "りん議");
    assert_eq!(type_code.to_string(), "りん議");
}

#[test]
fn test_user_id_new() {
    let user_id = UserId::new("user001");
    assert_eq!(user_id.0, "user001");
}

#[test]
fn section_code_to_string_is_the_letter() {
    assert_eq!(SectionCode::new('I').to_string(), "I");
}

#[test]
fn test_permissions_default() {
    let perms = Permissions::default();
    assert!(perms.can_create);
    assert!(perms.can_update);
    assert!(!perms.can_delete);
    assert!(perms.can_read);
}

#[test]
fn test_permissions_read_only() {
    let perms = Permissions::read_only();
    assert!(!perms.can_create);
    assert!(!perms.can_update);
    assert!(!perms.can_delete);
    assert!(perms.can_read);
    assert!(!perms.can_write());
}

#[test]
fn test_permissions_all() {
    let perms = Permissions::all();
    assert!(perms.can_create);
    assert!(perms.can_update);
    assert!(perms.can_delete);
    assert!(perms.can_read);
    assert!(perms.can_write());
}

#[test]
fn test_section_new() {
    let section = Section::new('I', "インフラ", 'G');
    assert_eq!(section.code.0, 'I');
    assert_eq!(section.name, "インフラ");
    assert_eq!(section.department.0, 'G');
}

#[test]
fn section_getters() {
    let section = Section::new('I', "インフラ", 'G');
    assert_eq!(section.code().0, 'I');
    assert_eq!(section.name(), "インフラ");
    assert_eq!(section.department().0, 'G');
}

#[test]
fn test_user_new() {
    let user = User::new("user001", "田川太郎", 'G', 'I');
    assert_eq!(user.id.0, "user001");
    assert_eq!(user.name, "田川太郎");
    assert_eq!(user.department.0, 'G');
    assert_eq!(user.section.0, 'I');
    assert!(user.permissions.can_read);
}

#[test]
fn test_user_with_permissions() {
    let user = User::new("user001", "Admin", 'G', 'I').with_permissions(Permissions::all());
    assert!(user.permissions.can_delete);
}

#[test]
fn user_getters() {
    let user = User::new("user001", "田川太郎", 'G', 'I');
    assert_eq!(user.id().0, "user001");
    assert_eq!(user.name(), "田川太郎");
    assert_eq!(user.department().0, 'G');
    assert_eq!(user.section().0, 'I');
    assert!(!user.permissions().can_delete);
}
