use schema_tui::{
    Action, ActiveWidget, ConfigSchema, ConfigValue, FieldType, KeyCode, KeyEvent, OptionProvider,
    OptionResolver, OptionSource, Resolution, SchemaField, SchemaSection, SchemaTUI,
    SchemaValidator, UIWidget, ValueMap,
};
use schema_tui::schema::{SchemaError, ValueError};
use schema_tui::ResolveError;
use schema_tui::{ActionOutcome, FieldAction};

type Tui = SchemaTUI<Box<dyn OptionProvider>>;

fn field(id: &str, field_type: FieldType, ui_widget: UIWidget) -> SchemaField {
    SchemaField {
        id: id.to_string(),
        label: id.to_string(),
        description: String::new(),
        field_type,
        optional: false,
        env_expand: false,
        ui_widget,
        keybind: None,
        subsection: None,
    }
}

fn section(id: &str, fields: Vec<SchemaField>, visible_when: Option<&str>) -> SchemaSection {
    SchemaSection {
        id: id.to_string(),
        title: id.to_string(),
        description: None,
        icon: None,
        fields,
        visible_when: visible_when.map(|s| s.to_string()),
    }
}

fn schema(sections: Vec<SchemaSection>) -> ConfigSchema {
    ConfigSchema { version: "1.0".to_string(), title: None, description: None, sections }
}

fn tui(sections: Vec<SchemaSection>, values: ValueMap) -> Tui {
    SchemaTUI::new(schema(sections), values, OptionResolver::new())
}

fn key(code: KeyCode) -> KeyEvent {
    KeyEvent::new(code)
}

fn theme_section() -> SchemaSection {
    let options = vec!["Light".to_string(), "Dark".to_string(), "Auto".to_string()];
    section(
        "general",
        vec![field(
            "theme",
            FieldType::Enum {
                options_source: OptionSource::Static { values: options },
                default: Some("Dark".to_string()),
            },
            UIWidget::Dropdown,
        )],
        None,
    )
}

#[test]
fn test_builder_pattern() {
    assert!(true);
}

#[test]
fn enum_field_starts_on_default_and_commits_choice() {
    let mut t = tui(vec![theme_section()], ValueMap::new());
    assert_eq!(t.get_value("general.theme"), Some(&ConfigValue::Text("Dark".to_string())));
    assert!(matches!(t.handle_key(key(KeyCode::Enter)), Action::NeedOptions));
    let options = match t.resolve_current_options(0) {
        Some(Resolution::Ready(r)) => r,
        _ => panic!("static options resolve at once"),
    };
    t.activate_with_options(options);
    match t.active_widget() {
        Some(ActiveWidget::Dropdown(d)) => assert_eq!(d.selected_index(), 1),
        _ => panic!("expected a dropdown"),
    }
    t.handle_key(key(KeyCode::Up));
    match t.handle_key(key(KeyCode::Enter)) {
        Action::Committed { key, value, persist } => {
            assert_eq!(key, "general.theme");
            assert_eq!(value, ConfigValue::Text("Light".to_string()));
            assert!(persist);
        }
        _ => panic!("expected a commit"),
    }
    assert!(!t.is_editing());
    assert!(t.active_widget().is_none());
    assert_eq!(t.get_value("general.theme"), Some(&ConfigValue::Text("Light".to_string())));
}

#[test]
fn failed_option_resolution_gives_empty_list() {
    let mut t = tui(vec![theme_section()], ValueMap::new());
    t.handle_key(key(KeyCode::Enter));
    t.activate_with_options(Err(ResolveError::UnknownProvider("x".to_string())));
    match t.active_widget() {
        Some(ActiveWidget::Dropdown(d)) => assert!(d.option_list().is_empty()),
        _ => panic!("expected a dropdown"),
    }
    assert!(t.is_editing());
}

#[test]
fn hidden_section_is_skipped_and_shown_again() {
    let general = section(
        "general",
        vec![field("advanced", FieldType::Boolean { default: false }, UIWidget::Toggle)],
        None,
    );
    let expert = section(
        "expert",
        vec![field("level", FieldType::Number { default: None, min: None, max: None }, UIWidget::NumberInput)],
        Some("general.advanced == true"),
    );
    let other = section(
        "other",
        vec![field("name", FieldType::String { default: None, max_length: None }, UIWidget::TextInput)],
        None,
    );
    let mut t = tui(vec![general, expert, other], ValueMap::new());
    assert_eq!(t.get_visible_sections(), vec![0, 2]);
    t.handle_key(key(KeyCode::Tab));
    assert_eq!(t.current_section_index(), 2);
    t.handle_key(key(KeyCode::Tab));
    assert_eq!(t.current_section_index(), 0);
    // Space on the toggle flips it and commits at once.
    match t.handle_key(key(KeyCode::Char(' '))) {
        Action::Committed { value, persist, .. } => {
            assert_eq!(value, ConfigValue::Bool(true));
            assert!(persist);
        }
        _ => panic!("expected a commit"),
    }
    assert!(!t.is_editing());
    assert_eq!(t.get_visible_sections(), vec![0, 1, 2]);
    t.handle_key(key(KeyCode::Right));
    assert_eq!(t.current_section_index(), 1);
    t.handle_key(key(KeyCode::BackTab));
    assert_eq!(t.current_section_index(), 0);
    t.handle_key(key(KeyCode::Left));
    assert_eq!(t.current_section_index(), 2);
}

#[test]
fn absent_key_keeps_predicated_section_visible() {
    let general = section(
        "general",
        vec![field("name", FieldType::String { default: None, max_length: None }, UIWidget::TextInput)],
        None,
    );
    let expert = section(
        "expert",
        vec![field("name", FieldType::String { default: None, max_length: None }, UIWidget::TextInput)],
        Some("general.advanced == true"),
    );
    let t = tui(vec![general, expert], ValueMap::new());
    assert_eq!(t.get_visible_sections(), vec![0, 1]);
}

#[test]
fn field_navigation_wraps() {
    let s = section(
        "s",
        vec![
            field("a", FieldType::String { default: None, max_length: None }, UIWidget::TextInput),
            field("b", FieldType::String { default: None, max_length: None }, UIWidget::TextInput),
        ],
        None,
    );
    let mut t = tui(vec![s], ValueMap::new());
    t.handle_key(key(KeyCode::Up));
    assert_eq!(t.current_field_index(), 1);
    t.handle_key(key(KeyCode::Char('j')));
    assert_eq!(t.current_field_index(), 0);
    assert_eq!(t.get_current_field_key(), "s.a");
}

#[test]
fn text_edit_previews_then_cancel_discards_widget() {
    let s = section(
        "s",
        vec![field("name", FieldType::String { default: Some("x".to_string()), max_length: None }, UIWidget::TextInput)],
        None,
    );
    let mut t = tui(vec![s], ValueMap::new());
    assert!(matches!(t.handle_key(key(KeyCode::Enter)), Action::Nothing));
    assert!(t.is_editing());
    match t.handle_key(key(KeyCode::Char('y'))) {
        Action::Committed { value, persist, .. } => {
            assert_eq!(value, ConfigValue::Text("xy".to_string()));
            assert!(!persist);
        }
        _ => panic!("expected a live update"),
    }
    assert_eq!(t.get_value("s.name"), Some(&ConfigValue::Text("xy".to_string())));
    assert!(matches!(t.handle_key(key(KeyCode::Esc)), Action::Cancelled));
    assert!(!t.is_editing());
    assert!(t.active_widget().is_none());
    assert_eq!(t.get_value("s.name"), Some(&ConfigValue::Text("xy".to_string())));
}

#[test]
fn number_field_refuses_out_of_range() {
    let s = section(
        "s",
        vec![field("n", FieldType::Number { default: Some(5), min: Some(0), max: Some(9) }, UIWidget::NumberInput)],
        None,
    );
    let mut t = tui(vec![s], ValueMap::new());
    t.handle_key(key(KeyCode::Enter));
    t.handle_key(key(KeyCode::Char('0')));
    assert!(matches!(t.handle_key(key(KeyCode::Enter)), Action::Nothing));
    assert!(t.is_editing());
    t.handle_key(key(KeyCode::Backspace));
    match t.handle_key(key(KeyCode::Enter)) {
        Action::Committed { value, .. } => assert_eq!(value, ConfigValue::Integer(5)),
        _ => panic!("expected a commit"),
    }
}

#[test]
fn initial_values_win_over_defaults() {
    let s = section(
        "s",
        vec![
            field("a", FieldType::Number { default: Some(1), min: None, max: None }, UIWidget::NumberInput),
            field("b", FieldType::Number { default: Some(2), min: None, max: None }, UIWidget::NumberInput),
            field("c", FieldType::String { default: None, max_length: None }, UIWidget::TextInput),
        ],
        None,
    );
    let mut values = ValueMap::new();
    values.insert("s.a".to_string(), ConfigValue::Integer(10));
    let t = tui(vec![s], values);
    assert_eq!(t.get_value("s.a"), Some(&ConfigValue::Integer(10)));
    assert_eq!(t.get_value("s.b"), Some(&ConfigValue::Integer(2)));
    assert_eq!(t.get_value("s.c"), None);
    assert_eq!(t.get_all_values().len(), 2);
}

#[test]
fn path_field_external_editor_round_trip() {
    let s = section(
        "s",
        vec![field(
            "wall",
            FieldType::Path { default: Some("/a.png".to_string()), file_type: Some(schema_tui::FileTypeFilter::Image), must_exist: false },
            UIWidget::FilePicker,
        )],
        None,
    );
    let mut t = tui(vec![s], ValueMap::new());
    match t.handle_key(key(KeyCode::Char('e'))) {
        Action::OpenEditor { key, current, extension } => {
            assert_eq!(key, "s.wall");
            assert_eq!(current, "/a.png");
            assert_eq!(extension, "png");
            match t.finish_external_edit(key, Some("  /b.png\n".to_string())) {
                Action::Committed { value, persist, .. } => {
                    assert_eq!(value, ConfigValue::Text("/b.png".to_string()));
                    assert!(persist);
                }
                _ => panic!("expected a commit"),
            }
        }
        _ => panic!("expected the editor"),
    }
    assert_eq!(t.get_value("s.wall"), Some(&ConfigValue::Text("/b.png".to_string())));
}

#[test]
fn quit_keys() {
    let mut t = tui(vec![theme_section()], ValueMap::new());
    assert!(matches!(t.handle_key(KeyEvent::with_ctrl(KeyCode::Char('c'))), Action::Quit));
    assert!(t.should_quit());
}

#[test]
fn value_display_uses_defaults_and_marks() {
    let s = section(
        "s",
        vec![
            field("on", FieldType::Boolean { default: true }, UIWidget::Toggle),
            field("n", FieldType::Number { default: Some(-3), min: None, max: None }, UIWidget::NumberInput),
        ],
        None,
    );
    let t = tui(vec![s.clone_for_test()], ValueMap::new());
    assert_eq!(t.get_value_display("s.on", &s.fields[0]), "\u{2713} true");
    assert_eq!(t.get_value_display("s.n", &s.fields[1]), "-3");
    assert_eq!(t.get_value_display("s.missing", &s.fields[1]), "-3");
}

trait CloneForTest {
    fn clone_for_test(&self) -> Self;
}

impl CloneForTest for SchemaSection {
    fn clone_for_test(&self) -> Self {
        let fields = self
            .fields
            .iter()
            .map(|f| {
                let ft = match &f.field_type {
                    FieldType::Boolean { default } => FieldType::Boolean { default: *default },
                    FieldType::Number { default, min, max } => FieldType::Number { default: *default, min: *min, max: *max },
                    _ => FieldType::String { default: None, max_length: None },
                };
                field(&f.id, ft, f.ui_widget)
            })
            .collect();
        section(&self.id, fields, self.visible_when.as_deref())
    }
}

#[test]
fn schema_validation() {
    assert_eq!(SchemaValidator::validate_schema(&schema(vec![])), Err(SchemaError::NoSections));
    let bad = schema(vec![theme_section(), section("empty", vec![], None)]);
    assert_eq!(SchemaValidator::validate_schema(&bad), Err(SchemaError::EmptySection("empty".to_string())));
    assert_eq!(SchemaValidator::validate_schema(&schema(vec![theme_section()])), Ok(()));
}

#[test]
fn field_actions_decide_new_value() {
    let editor = FieldAction::ExternalEditor { editor: "vi".to_string(), extension: "txt".to_string() };
    let cmd = FieldAction::CustomCommand { command: "pick".to_string() };
    let ok = |s: &str| ActionOutcome { success: true, output: s.to_string() };
    assert_eq!(editor.execute("a", ok("b\n")), Some("b\n".to_string()));
    assert_eq!(editor.execute("a", ok("a")), None);
    assert_eq!(editor.execute("a", ActionOutcome { success: false, output: "b".to_string() }), None);
    assert_eq!(cmd.execute("a", ok("  b \n")), Some("b".to_string()));
    assert_eq!(cmd.execute("a", ok(" a\n")), None);
    assert_eq!(cmd.execute("a", ok("   ")), None);
}

#[test]
fn value_validation() {

    let s = FieldType::String { default: None, max_length: Some(3) };
    assert_eq!(SchemaValidator::validate_value(&s, &ConfigValue::Text("abc".to_string())), Ok(()));
    assert_eq!(SchemaValidator::validate_value(&s, &ConfigValue::Text("abcd".to_string())), Err(ValueError::TooLong(3)));
    assert_eq!(SchemaValidator::validate_value(&s, &ConfigValue::Integer(1)), Err(ValueError::WrongType));
    let n = FieldType::Number { default: None, min: Some(0), max: Some(10) };
    assert_eq!(SchemaValidator::validate_value(&n, &ConfigValue::Integer(-1)), Err(ValueError::BelowMinimum(0)));
    assert_eq!(SchemaValidator::validate_value(&n, &ConfigValue::Integer(11)), Err(ValueError::AboveMaximum(10)));
    assert_eq!(SchemaValidator::validate_value(&n, &ConfigValue::Integer(10)), Ok(()));
    let b = FieldType::Boolean { default: false };
    assert_eq!(SchemaValidator::validate_value(&b, &ConfigValue::Text("true".to_string())), Err(ValueError::WrongType));
}

#[test]
fn searchable_enum_starts_from_default_after_failed_resolution() {
    let s = section(
        "general",
        vec![field(
            "lang",
            FieldType::Enum {
                options_source: OptionSource::Provider { provider: "missing".to_string() },
                default: Some("en".to_string()),
            },
            UIWidget::DropdownSearchable,
        )],
        None,
    );
    let mut t = tui(vec![s], ValueMap::new());
    assert!(matches!(t.handle_key(key(KeyCode::Enter)), Action::NeedOptions));
    let resolved = match t.resolve_current_options(0) {
        Some(Resolution::Ready(r)) => r,
        _ => panic!("providers resolve at once"),
    };
    assert_eq!(resolved, Err(ResolveError::UnknownProvider("missing".to_string())));
    t.activate_with_options(resolved);
    match t.active_widget() {
        Some(ActiveWidget::Searchable(w)) => {
            assert!(w.filtered_list().is_empty());
            assert_eq!(w.current_text(), "en");
        }
        _ => panic!("expected a searchable dropdown"),
    }
    assert!(matches!(t.handle_key(key(KeyCode::Enter)), Action::Nothing));
    assert!(t.is_editing());
}
