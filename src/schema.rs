//! The typed schema tree: sections, fields, field types and option sources.
//! It is read-only once loaded.
use vstd::prelude::*;
use crate::value::ConfigValue;

verus! {

pub struct ConfigSchema {
    pub version: String,
    pub title: Option<String>,
    pub description: Option<String>,
    pub sections: Vec<SchemaSection>,
}

pub struct SchemaSection {
    pub id: String,
    pub title: String,
    pub description: Option<String>,
    pub icon: Option<String>,
    pub fields: Vec<SchemaField>,
    /// A visibility predicate such as `general.advanced == true`.
    pub visible_when: Option<String>,
}

pub struct SchemaField {
    pub id: String,
    pub label: String,
    pub description: String,
    pub field_type: FieldType,
    pub optional: bool,
    pub env_expand: bool,
    pub ui_widget: UIWidget,
    pub keybind: Option<String>,
    /// Grouping tag, used only when the section is drawn.
    pub subsection: Option<String>,
}

/// The six field shapes. Fractional quantities of `Float` fields are kept by
/// their decimal text; the engine hands them on without reading them.
#[allow(inconsistent_fields)]
pub enum FieldType {
    String { default: Option<String>, max_length: Option<usize> },
    Number { default: Option<i64>, min: Option<i64>, max: Option<i64> },
    Float {
        default: Option<String>,
        min: Option<String>,
        max: Option<String>,
        step: Option<String>,
    },
    Boolean { default: bool },
    Enum { options_source: OptionSource, default: Option<String> },
    Path { default: Option<String>, file_type: Option<FileTypeFilter>, must_exist: bool },
}

/// Where the choices of an `Enum` field come from.
pub enum OptionSource {
    Static { values: Vec<String> },
    Script { command: String, cache_duration: Option<u64>, depends_on: Vec<String> },
    Function { name: String },
    Provider { provider: String },
    FileList { directory: String, pattern: String, extract: Option<String> },
}

#[derive(Debug, Clone, Copy, PartialEq, Eq, Structural)]
pub enum UIWidget {
    TextInput,
    NumberInput,
    Toggle,
    Dropdown,
    DropdownSearchable,
    FilePicker,
}

impl Default for UIWidget {
    fn default() -> (r: UIWidget)
        ensures
            r == UIWidget::TextInput,
    {
        UIWidget::TextInput
    }
}

#[derive(Debug, Clone, Copy, PartialEq, Eq, Structural)]
pub enum FileTypeFilter {
    Image,
    Json,
    Any,
}

/// Problems that make a schema unusable.
#[derive(Debug, PartialEq, Eq)]
pub enum SchemaError {
    NoSections,
    /// The section with this id has no fields.
    EmptySection(String),
}


/// Why a value does not fit its field.
#[derive(Debug, Clone, Copy, PartialEq, Eq, Structural)]
pub enum ValueError {
    /// The value has the wrong type for the field.
    WrongType,
    /// A string longer than the maximum length, in characters.
    TooLong(usize),
    BelowMinimum(i64),
    AboveMaximum(i64),
}

/// The first problem of `v` as a value of a field of type `ft`. Fractional
/// bounds and whether a path exists are not decided here.
pub open spec fn value_problem(ft: FieldType, v: ConfigValue) -> Option<ValueError> {
    match ft {
        FieldType::String { max_length, .. } => match v {
            ConfigValue::Text(s) => match max_length {
                Some(m) => if s@.len() > m {
                    Some(ValueError::TooLong(m))
                } else {
                    None
                },
                None => None,
            },
            _ => Some(ValueError::WrongType),
        },
        FieldType::Number { min, max, .. } => match v {
            ConfigValue::Integer(n) => if min is Some && n < min->0 {
                Some(ValueError::BelowMinimum(min->0))
            } else if max is Some && n > max->0 {
                Some(ValueError::AboveMaximum(max->0))
            } else {
                None
            },
            _ => Some(ValueError::WrongType),
        },
        FieldType::Float { .. } => match v {
            ConfigValue::Integer(_) | ConfigValue::Number(_) => None,
            _ => Some(ValueError::WrongType),
        },
        FieldType::Boolean { .. } => if v is Bool {
            None
        } else {
            Some(ValueError::WrongType)
        },
        FieldType::Enum { .. } | FieldType::Path { .. } => if v is Text {
            None
        } else {
            Some(ValueError::WrongType)
        },
    }
}

pub struct SchemaValidator;

impl SchemaValidator {
    /// Checks a value against its field type: its type, a string's maximum
    /// length and an integer's bounds.
    pub fn validate_value(field_type: &FieldType, value: &ConfigValue) -> (r: Result<(), ValueError>)
        ensures
            match value_problem(*field_type, *value) {
                Some(e) => r == Err::<(), ValueError>(e),
                None => r is Ok,
            },
    {
        match field_type {
            FieldType::String { max_length, .. } => match value {
                ConfigValue::Text(s) => match max_length {
                    Some(m) => {
                        let n = crate::text::chars_of(s.as_str()).len();
                        if n > *m {
                            Err(ValueError::TooLong(*m))
                        } else {
                            Ok(())
                        }
                    },
                    None => Ok(()),
                },
                _ => Err(ValueError::WrongType),
            },
            FieldType::Number { min, max, .. } => match value {
                ConfigValue::Integer(n) => match (min, max) {
                    (Some(lo), _) if *n < *lo => Err(ValueError::BelowMinimum(*lo)),
                    (_, Some(hi)) if *n > *hi => Err(ValueError::AboveMaximum(*hi)),
                    _ => Ok(()),
                },
                _ => Err(ValueError::WrongType),
            },
            FieldType::Float { .. } => match value {
                ConfigValue::Integer(_) | ConfigValue::Number(_) => Ok(()),
                _ => Err(ValueError::WrongType),
            },
            FieldType::Boolean { .. } => match value {
                ConfigValue::Bool(_) => Ok(()),
                _ => Err(ValueError::WrongType),
            },
            FieldType::Enum { .. } | FieldType::Path { .. } => match value {
                ConfigValue::Text(_) => Ok(()),
                _ => Err(ValueError::WrongType),
            },
        }
    }

    /// A schema needs at least one section, and every section at least one
    /// field; the first section without fields is reported.
    pub fn validate_schema(schema: &ConfigSchema) -> (r: Result<(), SchemaError>)
        ensures
            schema.sections@.len() == 0 ==> r == Err::<(), SchemaError>(SchemaError::NoSections),
            schema.sections@.len() > 0 ==> match r {
                Ok(_) => forall|i: int|
                    0 <= i < schema.sections@.len() ==> #[trigger] schema.sections@[i].fields@.len()
                        > 0,
                Err(SchemaError::EmptySection(id)) => exists|i: int|
                    0 <= i < schema.sections@.len() && #[trigger] schema.sections@[i].fields@.len()
                        == 0 && schema.sections@[i].id@ == id@ && forall|j: int|
                        0 <= j < i ==> schema.sections@[j].fields@.len() > 0,
                Err(SchemaError::NoSections) => false,
            },
    {
        if schema.sections.len() == 0 {
            return Err(SchemaError::NoSections);
        }
        let mut i: usize = 0;
        while i < schema.sections.len()
            invariant
                i <= schema.sections@.len(),
                forall|j: int| 0 <= j < i ==> #[trigger] schema.sections@[j].fields@.len() > 0,
            decreases schema.sections.len() - i,
        {
            if schema.sections[i].fields.len() == 0 {
                return Err(SchemaError::EmptySection(schema.sections[i].id.clone()));
            }
            i = i + 1;
        }
        Ok(())
    }
}

} // verus!
