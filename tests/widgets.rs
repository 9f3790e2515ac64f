use schema_tui::{
    ConfigValue, Dropdown, KeyCode, KeyEvent, NumberInput, SearchableDropdown, TextInput, Toggle,
    WidgetResult,
};

fn key_event(code: KeyCode) -> KeyEvent {
    KeyEvent::new(code)
}

fn strings(items: &[&str]) -> Vec<String> {
    items.iter().map(|s| s.to_string()).collect()
}

#[test]
fn test_text_input_basic() {
    let mut input = TextInput::new("Name", "John");

    assert_eq!(input.get_value(), ConfigValue::Text("John".to_string()));

    input.set_value(ConfigValue::Text("Jane".to_string()));
    assert_eq!(input.get_value(), ConfigValue::Text("Jane".to_string()));
}

#[test]
fn test_text_input_editing() {
    let mut input = TextInput::new("Test", "");
    input.start_editing();

    let result = input.handle_key(key_event(KeyCode::Char('H')));
    assert!(matches!(result, WidgetResult::Changed(_)));

    input.handle_key(key_event(KeyCode::Char('i')));

    let result = input.handle_key(key_event(KeyCode::Enter));
    match result {
        WidgetResult::Confirmed(val) => {
            assert_eq!(val.as_str().unwrap(), "Hi");
        }
        _ => panic!("Expected confirmed result"),
    }
}

#[test]
fn test_text_input_cursor_movement() {
    let mut input = TextInput::new("Test", "Hello");
    input.start_editing();

    input.handle_key(key_event(KeyCode::Left));
    input.handle_key(key_event(KeyCode::Left));

    input.handle_key(key_event(KeyCode::Char('X')));

    let value = input.get_value();
    assert_eq!(value.as_str().unwrap(), "HelXlo");
}

#[test]
fn test_toggle_basic() {
    let mut toggle = Toggle::new("Feature", false);

    assert_eq!(toggle.get_value(), ConfigValue::Bool(false));

    toggle.handle_key(key_event(KeyCode::Enter));
    assert_eq!(toggle.get_value(), ConfigValue::Bool(true));

    toggle.handle_key(key_event(KeyCode::Char(' ')));
    assert_eq!(toggle.get_value(), ConfigValue::Bool(false));
}

#[test]
fn test_number_input_validation() {
    let mut input = NumberInput::new("Age", 25, Some(0), Some(150));
    input.start_editing();

    input.handle_key(key_event(KeyCode::Backspace));
    input.handle_key(key_event(KeyCode::Backspace));
    input.handle_key(key_event(KeyCode::Char('-')));
    input.handle_key(key_event(KeyCode::Char('5')));

    let result = input.handle_key(key_event(KeyCode::Enter));
    assert!(matches!(result, WidgetResult::Continue));
}

#[test]
fn test_number_input_valid() {
    let mut input = NumberInput::new("Count", 0, Some(0), Some(100));
    input.start_editing();

    input.handle_key(key_event(KeyCode::Char('4')));
    input.handle_key(key_event(KeyCode::Char('2')));

    let result = input.handle_key(key_event(KeyCode::Enter));
    match result {
        WidgetResult::Confirmed(val) => {
            assert_eq!(val.as_i64().unwrap(), 42);
        }
        _ => panic!("Expected confirmed result"),
    }
}

#[test]
fn test_number_input_only_digits() {
    let mut input = NumberInput::new("Test", 0, None, None);
    input.start_editing();

    input.handle_key(key_event(KeyCode::Char('a')));
    assert_eq!(input.get_value().as_i64().unwrap(), 0);

    input.handle_key(key_event(KeyCode::Char('5')));
    assert_eq!(input.get_value().as_i64().unwrap(), 5);
}

#[test]
fn number_input_above_max_is_not_confirmed() {
    let mut input = NumberInput::new("Count", 99, Some(0), Some(100));
    input.start_editing();
    input.handle_key(key_event(KeyCode::Char('9')));
    let result = input.handle_key(key_event(KeyCode::Enter));
    assert_eq!(result, WidgetResult::Continue);
    assert_eq!(input.get_value(), ConfigValue::Text("999".to_string()));
}

#[test]
fn number_input_bounds_are_inclusive() {
    let mut input = NumberInput::new("Count", 100, Some(0), Some(100));
    input.start_editing();
    let result = input.handle_key(key_event(KeyCode::Enter));
    assert_eq!(result, WidgetResult::Confirmed(ConfigValue::Integer(100)));
}

#[test]
fn number_input_without_bounds_confirms_any_number() {
    let mut input = NumberInput::new("Count", -7, None, None);
    input.start_editing();
    input.handle_key(key_event(KeyCode::Char('0')));
    let result = input.handle_key(key_event(KeyCode::Enter));
    assert_eq!(result, WidgetResult::Confirmed(ConfigValue::Integer(-70)));
}

#[test]
fn number_input_unparsable_buffer_is_not_confirmed() {
    let mut input = NumberInput::new("Count", 5, None, None);
    input.start_editing();
    input.handle_key(key_event(KeyCode::Backspace));
    input.handle_key(key_event(KeyCode::Char('-')));
    let result = input.handle_key(key_event(KeyCode::Enter));
    assert_eq!(result, WidgetResult::Continue);
}

#[test]
fn number_input_allows_one_leading_minus_only() {
    let mut input = NumberInput::new("Count", 5, None, None);
    input.start_editing();
    input.handle_key(key_event(KeyCode::Left));
    input.handle_key(key_event(KeyCode::Char('-')));
    input.handle_key(key_event(KeyCode::Left));
    input.handle_key(key_event(KeyCode::Char('-')));
    assert_eq!(input.get_value(), ConfigValue::Integer(-5));
}

#[test]
fn number_input_shows_initial_value_in_decimal() {
    let input = NumberInput::new("Count", i64::MIN, None, None);
    assert_eq!(input.get_display_text(), "-9223372036854775808");
}

#[test]
fn text_input_keys_outside_editing_are_ignored() {
    let mut input = TextInput::new("Name", "abc");
    let result = input.handle_key(key_event(KeyCode::Char('x')));
    assert_eq!(result, WidgetResult::Continue);
    assert_eq!(input.get_value(), ConfigValue::Text("abc".to_string()));
}

#[test]
fn text_input_escape_cancels() {
    let mut input = TextInput::new("Name", "abc");
    input.start_editing();
    assert_eq!(input.handle_key(key_event(KeyCode::Esc)), WidgetResult::Cancelled);
}

#[test]
fn text_input_home_delete_and_end() {
    let mut input = TextInput::new("Name", "abc");
    input.start_editing();
    input.handle_key(key_event(KeyCode::Home));
    let r = input.handle_key(key_event(KeyCode::Delete));
    assert_eq!(r, WidgetResult::Changed(ConfigValue::Text("bc".to_string())));
    input.handle_key(key_event(KeyCode::End));
    input.handle_key(key_event(KeyCode::Char('d')));
    assert_eq!(input.get_display_text(), "bcd\u{2588}");
}

#[test]
fn text_input_backspace_at_start_changes_nothing() {
    let mut input = TextInput::new("Name", "ab");
    input.start_editing();
    input.handle_key(key_event(KeyCode::Home));
    input.handle_key(key_event(KeyCode::Backspace));
    assert_eq!(input.get_value(), ConfigValue::Text("ab".to_string()));
}

#[test]
fn toggle_activate_flips_at_once() {
    let mut toggle = Toggle::new("Feature", true);
    toggle.activate();
    assert_eq!(toggle.get_value(), ConfigValue::Bool(false));
    assert_eq!(toggle.handle_key(key_event(KeyCode::Char('x'))), WidgetResult::Continue);
}

#[test]
fn dropdown_starts_on_initial_value_and_wraps() {
    let mut d = Dropdown::new("Theme", strings(&["Light", "Dark", "Auto"]), Some("Auto".to_string()));
    assert_eq!(d.selected_index(), 2);
    d.start_selecting();
    d.handle_key(key_event(KeyCode::Down));
    assert_eq!(d.selected_index(), 0);
    d.handle_key(key_event(KeyCode::Char('k')));
    assert_eq!(d.selected_index(), 2);
    let r = d.handle_key(key_event(KeyCode::Enter));
    assert_eq!(r, WidgetResult::Confirmed(ConfigValue::Text("Auto".to_string())));
}

#[test]
fn dropdown_unknown_initial_value_starts_at_first() {
    let d = Dropdown::new("Theme", strings(&["Light", "Dark"]), Some("Sepia".to_string()));
    assert_eq!(d.selected_index(), 0);
}

#[test]
fn dropdown_empty_confirms_empty_text() {
    let mut d = Dropdown::new("Theme", Vec::new(), None);
    d.start_selecting();
    d.handle_key(key_event(KeyCode::Down));
    assert_eq!(d.selected_index(), 0);
    let r = d.handle_key(key_event(KeyCode::Enter));
    assert_eq!(r, WidgetResult::Confirmed(ConfigValue::Text(String::new())));
}

#[test]
fn searchable_dropdown_filters_ignoring_case() {
    let mut d = SearchableDropdown::new("Lang", strings(&["English", "german", "FRENCH"]), None);
    d.start_selecting();
    d.handle_key(key_event(KeyCode::Char('E')));
    d.handle_key(key_event(KeyCode::Char('N')));
    assert_eq!(d.filtered_list(), &strings(&["English", "FRENCH"]));
    d.handle_key(key_event(KeyCode::Char('c')));
    assert_eq!(d.filtered_list(), &strings(&["FRENCH"]));
    let r = d.handle_key(key_event(KeyCode::Enter));
    assert_eq!(r, WidgetResult::Confirmed(ConfigValue::Text("FRENCH".to_string())));
    assert_eq!(d.get_value(), ConfigValue::Text("FRENCH".to_string()));
}

#[test]
fn searchable_dropdown_no_match_refuses_enter() {
    let mut d = SearchableDropdown::new("Lang", strings(&["English", "German"]), None);
    d.start_selecting();
    d.handle_key(key_event(KeyCode::Char('x')));
    d.handle_key(key_event(KeyCode::Char('y')));
    assert!(d.filtered_list().is_empty());
    let r = d.handle_key(key_event(KeyCode::Enter));
    assert_eq!(r, WidgetResult::Continue);
    assert_eq!(d.get_value(), ConfigValue::Text("English".to_string()));
    d.handle_key(key_event(KeyCode::Backspace));
    d.handle_key(key_event(KeyCode::Backspace));
    assert_eq!(d.filtered_list().len(), 2);
}

#[test]
fn searchable_dropdown_clamps_highlight_after_filtering() {
    let mut d = SearchableDropdown::new("Lang", strings(&["ab", "b", "ac"]), None);
    d.start_selecting();
    d.handle_key(key_event(KeyCode::Down));
    d.handle_key(key_event(KeyCode::Down));
    assert_eq!(d.selected_index(), 2);
    d.handle_key(key_event(KeyCode::Char('b')));
    assert_eq!(d.filtered_list(), &strings(&["ab", "b"]));
    assert_eq!(d.selected_index(), 1);
}

#[test]
fn searchable_dropdown_ctrl_j_types_into_search() {
    let mut d = SearchableDropdown::new("Lang", strings(&["jam", "ham"]), None);
    d.start_selecting();
    d.handle_key(KeyEvent::with_ctrl(KeyCode::Char('j')));
    assert_eq!(d.search_text(), "j");
    assert_eq!(d.filtered_list(), &strings(&["jam"]));
}

#[test]
fn searchable_dropdown_escape_keeps_value() {
    let mut d = SearchableDropdown::new("Lang", strings(&["a", "b"]), Some("b".to_string()));
    d.start_selecting();
    assert_eq!(d.handle_key(key_event(KeyCode::Esc)), WidgetResult::Cancelled);
    assert_eq!(d.current_text(), "b");
}
