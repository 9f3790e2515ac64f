use schema_tui::{evaluate_condition, ConfigValue, ValueMap};

#[test]
fn test_boolean_condition() {
    let mut values = ValueMap::new();
    values.insert("general.use_matugen".to_string(), ConfigValue::Bool(true));

    assert!(evaluate_condition("general.use_matugen == true", &values));
    assert!(!evaluate_condition("general.use_matugen == false", &values));
}

#[test]
fn test_string_condition() {
    let mut values = ValueMap::new();
    values.insert("general.mode".to_string(), ConfigValue::Text("dark".to_string()));

    assert!(evaluate_condition("general.mode == \"dark\"", &values));
    assert!(!evaluate_condition("general.mode == \"light\"", &values));
}

#[test]
fn visibility_fails_open_then_follows_the_value() {
    let mut values = ValueMap::new();
    let predicate = "general.advanced == true";
    assert!(evaluate_condition(predicate, &values));
    values.insert("general.advanced".to_string(), ConfigValue::Bool(false));
    assert!(!evaluate_condition(predicate, &values));
    values.insert("general.advanced".to_string(), ConfigValue::Bool(true));
    assert!(evaluate_condition(predicate, &values));
}

#[test]
fn not_equal_predicates() {
    let mut values = ValueMap::new();
    values.insert("a.flag".to_string(), ConfigValue::Bool(true));
    values.insert("a.mode".to_string(), ConfigValue::Text("dark".to_string()));
    assert!(!evaluate_condition("a.flag != true", &values));
    assert!(evaluate_condition("a.flag != false", &values));
    assert!(evaluate_condition("a.mode != 'light'", &values));
    assert!(!evaluate_condition("  a.mode != dark  ", &values));
}

#[test]
fn integer_predicates() {
    let mut values = ValueMap::new();
    values.insert("a.n".to_string(), ConfigValue::Integer(3));
    assert!(evaluate_condition("a.n == 3", &values));
    assert!(!evaluate_condition("a.n == 4", &values));
    assert!(evaluate_condition("a.n == three", &values));
    assert!(!evaluate_condition("a.n != 3", &values));
    assert!(evaluate_condition("a.n != 4", &values));
    assert!(evaluate_condition("a.n != three", &values));
}

#[test]
fn malformed_or_mismatched_predicates_are_satisfied() {
    let mut values = ValueMap::new();
    values.insert("a.flag".to_string(), ConfigValue::Bool(false));
    assert!(evaluate_condition("a.flag", &values));
    assert!(evaluate_condition("a.flag == yes", &values));
    assert!(evaluate_condition("", &values));
    assert!(evaluate_condition("a.other == true", &values));
}
