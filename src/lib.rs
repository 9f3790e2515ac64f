//! An interactive editing engine for configuration files whose shape is
//! given by a schema: per-field editing widgets, a section and field
//! navigation controller, option resolution for enumerated fields with a
//! time-bounded cache, and a small visibility-predicate evaluator.
pub mod text;
pub mod assoc;
pub mod value;
pub mod schema;
pub mod conditions;
pub mod cache;
pub mod resolver;
pub mod widget;
pub mod text_input;
pub mod number_input;
pub mod toggle;
pub mod dropdown;
pub mod searchable_dropdown;
pub mod actions;
pub mod app;
pub mod layout;

pub use actions::{ActionOutcome, FieldAction};
pub use app::{Action, ActiveWidget, SchemaTUI};
pub use cache::OptionCache;
pub use conditions::evaluate_condition;
pub use dropdown::Dropdown;
pub use number_input::NumberInput;
pub use resolver::{OptionProvider, OptionResolver, ResolveError, Resolution, ScriptPlan, ScriptRun};
pub use schema::{
    ConfigSchema, FieldType, FileTypeFilter, OptionSource, SchemaField, SchemaSection, SchemaValidator, UIWidget,
};
pub use searchable_dropdown::SearchableDropdown;
pub use text_input::TextInput;
pub use toggle::Toggle;
pub use value::{ConfigValue, ValueMap};
pub use widget::{KeyCode, KeyEvent, WidgetResult, WidgetState};
