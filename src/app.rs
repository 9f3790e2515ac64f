//! The navigation and editing controller. It owns the value map and the
//! focus (section and field), builds a fresh widget on each activation,
//! routes keys to it, and merges what it reports back into the value map.
//!
//! Drawing, persistence, change listeners and running outside programs are
//! the caller's part: each decision here returns an `Action` that says what,
//! if anything, the caller has to do.
use vstd::prelude::*;
use crate::conditions::{condition_holds, evaluate_condition};
use crate::dropdown::{position_of, Dropdown};
use crate::number_input::NumberInput;
use crate::resolver::{OptionProvider, OptionResolver, ResolveError, Resolution};
use crate::schema::{ConfigSchema, FieldType, FileTypeFilter, OptionSource, SchemaField, SchemaSection, UIWidget};
use crate::searchable_dropdown::SearchableDropdown;
use crate::text::{i64_to_string, decimal, push_char};
use crate::text_input::TextInput;
use crate::toggle::Toggle;
use crate::value::{ConfigValue, ValueMap};
use crate::widget::{KeyCode, KeyEvent, WidgetResult};

verus! {

/// The qualified key `section_id.field_id`.
pub open spec fn qualified(section_id: Seq<char>, field_id: Seq<char>) -> Seq<char> {
    section_id + seq!['.'] + field_id
}

pub fn qualified_key(section_id: &str, field_id: &str) -> (r: String)
    ensures
        r@ == qualified(section_id@, field_id@),
{
    let mut key = String::from_str(section_id);
    push_char(&mut key, '.');
    key.append(field_id);
    key
}

/// The value a field takes when the value map has none.
pub open spec fn default_of(ft: FieldType) -> Option<ConfigValue> {
    match ft {
        FieldType::String { default, .. } => match default {
            Some(s) => Some(ConfigValue::Text(s)),
            None => None,
        },
        FieldType::Path { default, .. } => match default {
            Some(s) => Some(ConfigValue::Text(s)),
            None => None,
        },
        FieldType::Boolean { default } => Some(ConfigValue::Bool(default)),
        FieldType::Number { default, .. } => match default {
            Some(n) => Some(ConfigValue::Integer(n)),
            None => None,
        },
        FieldType::Float { default, .. } => match default {
            Some(t) => Some(ConfigValue::Number(t)),
            None => None,
        },
        FieldType::Enum { default, .. } => match default {
            Some(s) => Some(ConfigValue::Text(s)),
            None => None,
        },
    }
}

pub fn get_field_default(field_type: &FieldType) -> (r: Option<ConfigValue>)
    ensures
        r == default_of(*field_type),
{
    match field_type {
        FieldType::String { default, .. } => match default {
            Some(s) => Some(ConfigValue::Text(s.clone())),
            None => None,
        },
        FieldType::Path { default, .. } => match default {
            Some(s) => Some(ConfigValue::Text(s.clone())),
            None => None,
        },
        FieldType::Boolean { default } => Some(ConfigValue::Bool(*default)),
        FieldType::Number { default, .. } => match default {
            Some(n) => Some(ConfigValue::Integer(*n)),
            None => None,
        },
        FieldType::Float { default, .. } => match default {
            Some(t) => Some(ConfigValue::Number(t.clone())),
            None => None,
        },
        FieldType::Enum { default, .. } => match default {
            Some(s) => Some(ConfigValue::Text(s.clone())),
            None => None,
        },
    }
}

/// Whether a section shows: it has no predicate, or the predicate holds.
pub open spec fn section_visible(s: SchemaSection, values: Map<Seq<char>, ConfigValue>) -> bool {
    match s.visible_when {
        None => true,
        Some(c) => condition_holds(c@, values),
    }
}

/// Indices of the visible sections among the first `n`, in order.
pub open spec fn visible_prefix(
    sections: Seq<SchemaSection>,
    values: Map<Seq<char>, ConfigValue>,
    n: int,
) -> Seq<usize>
    decreases n,
{
    if n <= 0 {
        Seq::empty()
    } else {
        let r = visible_prefix(sections, values, n - 1);
        if section_visible(sections[n - 1], values) {
            r.push((n - 1) as usize)
        } else {
            r
        }
    }
}

pub open spec fn visible_indices(sections: Seq<SchemaSection>, values: Map<Seq<char>, ConfigValue>) -> Seq<usize> {
    visible_prefix(sections, values, sections.len() as int)
}

/// The first position of `x` in `list`, from position `i` on.
pub open spec fn position_in(list: Seq<usize>, x: usize, i: int) -> Option<int>
    decreases list.len() - i,
{
    if i < 0 || i >= list.len() {
        None
    } else if list[i] == x {
        Some(i)
    } else {
        position_in(list, x, i + 1)
    }
}

/// The section after `cur` among the visible ones, wrapping around; the
/// first visible one when `cur` is hidden.
pub open spec fn following_section(list: Seq<usize>, cur: usize) -> usize {
    if list.len() == 0 {
        cur
    } else {
        match position_in(list, cur, 0) {
            Some(p) => list[(p + 1) % (list.len() as int)],
            None => list[0],
        }
    }
}

/// The section before `cur` among the visible ones, wrapping around; the
/// first visible one when `cur` is hidden.
pub open spec fn preceding_section(list: Seq<usize>, cur: usize) -> usize {
    if list.len() == 0 {
        cur
    } else {
        match position_in(list, cur, 0) {
            Some(p) => if p == 0 {
                list[list.len() - 1]
            } else {
                list[p - 1]
            },
            None => list[0],
        }
    }
}

/// Some field of the schema has the qualified key `k` and the default `v`.
pub open spec fn schema_default(schema: ConfigSchema, k: Seq<char>, v: ConfigValue) -> bool {
    exists|i: int, j: int|
        0 <= i < schema.sections@.len() && 0 <= j < schema.sections@[i].fields@.len() && k
            == qualified(schema.sections@[i].id@, #[trigger] schema.sections@[i].fields@[j].id@)
            && default_of(schema.sections@[i].fields@[j].field_type) == Some(v)
}

/// What the caller has to do after a step of the controller.
#[allow(inconsistent_fields)]
pub enum Action {
    Nothing,
    Quit,
    /// A value went into the value map: tell the change listeners, and when
    /// `persist` is set (a confirmed edit) save the configuration.
    Committed { key: String, value: ConfigValue, persist: bool },
    Cancelled,
    /// The focused field is an `Enum`: resolve `current_option_source`, then
    /// call `activate_with_options`.
    NeedOptions,
    /// The focused field holds a fractional number, edited by the caller; its
    /// results come back through `apply_widget_result`.
    EditOutside { key: String, value: Option<ConfigValue> },
    /// Open the value of the focused path field in an external editor, then
    /// call `finish_external_edit`.
    OpenEditor { key: String, current: String, extension: String },
}

/// The widget that edits the active field.
pub enum ActiveWidget {
    Text(TextInput),
    Number(NumberInput),
    Dropdown(Dropdown),
    Searchable(SearchableDropdown),
    /// Edited by the caller.
    Outside,
}

pub struct SchemaTUI<P: OptionProvider> {
    schema: ConfigSchema,
    values: ValueMap,
    current_section: usize,
    current_field: usize,
    edit_mode: bool,
    active_field: Option<String>,
    active_widget: Option<ActiveWidget>,
    option_resolver: OptionResolver<P>,
    message: Option<String>,
    should_quit: bool,
}

impl<P: OptionProvider> SchemaTUI<P> {
    pub closed spec fn values_view(&self) -> Map<Seq<char>, ConfigValue> {
        self.values@
    }

    pub closed spec fn sections(&self) -> Seq<SchemaSection> {
        self.schema.sections@
    }

    pub closed spec fn section_index(&self) -> usize {
        self.current_section
    }

    pub closed spec fn field_index(&self) -> usize {
        self.current_field
    }

    pub closed spec fn editing(&self) -> bool {
        self.edit_mode
    }

    pub closed spec fn has_widget(&self) -> bool {
        self.active_widget is Some
    }

    pub closed spec fn active_key(&self) -> Option<Seq<char>> {
        match self.active_field {
            Some(k) => Some(k@),
            None => None,
        }
    }

    pub closed spec fn quitting(&self) -> bool {
        self.should_quit
    }

    pub closed spec fn wf(&self) -> bool {
        &&& self.values.wf()
        &&& self.option_resolver.wf()
        &&& (self.edit_mode <==> self.active_field is Some)
        &&& (self.edit_mode <==> self.active_widget is Some)
        &&& self.active_widget matches Some(w) ==> widget_wf(w)
    }

    /// Starts a session on `schema`. Keys missing from `initial_values` get
    /// their field's schema default, when it has one.
    pub fn new(schema: ConfigSchema, initial_values: ValueMap, option_resolver: OptionResolver<P>) -> (r: SchemaTUI<P>)
        requires
            initial_values.wf(),
            option_resolver.wf(),
        ensures
            r.wf(),
            r.sections() == schema.sections@,
            r.section_index() == 0,
            r.field_index() == 0,
            !r.editing(),
            !r.quitting(),
            forall|k: Seq<char>|
                #[trigger] initial_values@.contains_key(k) ==> r.values_view().contains_key(k)
                    && r.values_view()[k] == initial_values@[k],
            forall|k: Seq<char>|
                #[trigger] r.values_view().contains_key(k) ==> initial_values@.contains_key(k)
                    || schema_default(schema, k, r.values_view()[k]),
            forall|i: int, j: int|
                0 <= i < schema.sections@.len() && 0 <= j < schema.sections@[i].fields@.len()
                    && default_of(#[trigger] schema.sections@[i].fields@[j].field_type) is Some
                    ==> r.values_view().contains_key(
                    qualified(schema.sections@[i].id@, schema.sections@[i].fields@[j].id@),
                ),
    {
        let mut values = initial_values;
        let mut i: usize = 0;
        while i < schema.sections.len()
            invariant
                i <= schema.sections@.len(),
                values.wf(),
                forall|k: Seq<char>|
                    #[trigger] initial_values@.contains_key(k) ==> values@.contains_key(k)
                        && values@[k] == initial_values@[k],
                forall|k: Seq<char>|
                    #[trigger] values@.contains_key(k) ==> initial_values@.contains_key(k)
                        || schema_default(schema, k, values@[k]),
                forall|a: int, b: int|
                    0 <= a < i && 0 <= b < schema.sections@[a].fields@.len() && default_of(
                        #[trigger] schema.sections@[a].fields@[b].field_type,
                    ) is Some ==> values@.contains_key(
                        qualified(schema.sections@[a].id@, schema.sections@[a].fields@[b].id@),
                    ),
            decreases schema.sections.len() - i,
        {
            let section = &schema.sections[i];
            let mut j: usize = 0;
            while j < section.fields.len()
                invariant
                    i < schema.sections@.len(),
                    *section == schema.sections@[i as int],
                    j <= section.fields@.len(),
                    values.wf(),
                    forall|k: Seq<char>|
                        #[trigger] initial_values@.contains_key(k) ==> values@.contains_key(k)
                            && values@[k] == initial_values@[k],
                    forall|k: Seq<char>|
                        #[trigger] values@.contains_key(k) ==> initial_values@.contains_key(k)
                            || schema_default(schema, k, values@[k]),
                    forall|a: int, b: int|
                        0 <= a < i && 0 <= b < schema.sections@[a].fields@.len() && default_of(
                            #[trigger] schema.sections@[a].fields@[b].field_type,
                        ) is Some ==> values@.contains_key(
                            qualified(schema.sections@[a].id@, schema.sections@[a].fields@[b].id@),
                        ),
                    forall|b: int|
                        0 <= b < j && default_of(#[trigger] section.fields@[b].field_type) is Some
                            ==> values@.contains_key(qualified(section.id@, section.fields@[b].id@)),
                decreases section.fields.len() - j,
            {
                let field = &section.fields[j];
                let key = qualified_key(section.id.as_str(), field.id.as_str());
                if !values.contains_key(key.as_str()) {
                    match get_field_default(&field.field_type) {
                        Some(v) => {
                            assert(schema_default(schema, key@, v)) by {
                                assert(schema.sections@[i as int].fields@[j as int] == *field);
                            }
                            values.insert(key, v);
                        },
                        None => {},
                    }
                }
                j = j + 1;
            }
            i = i + 1;
        }
        SchemaTUI {
            schema,
            values,
            current_section: 0,
            current_field: 0,
            edit_mode: false,
            active_field: None,
            active_widget: None,
            option_resolver,
            message: None,
            should_quit: false,
        }
    }

    pub fn get_value(&self, key: &str) -> (r: Option<&ConfigValue>)
        requires
            self.wf(),
        ensures
            match r {
                Some(v) => self.values_view().contains_key(key@) && *v == self.values_view()[key@],
                None => !self.values_view().contains_key(key@),
            },
    {
        self.values.get(key)
    }

    pub fn get_all_values(&self) -> (r: &ValueMap)
        requires
            self.wf(),
        ensures
            r.wf(),
            r@ == self.values_view(),
    {
        &self.values
    }

    pub fn schema(&self) -> (r: &ConfigSchema)
        ensures
            r.sections@ == self.sections(),
    {
        &self.schema
    }

    pub fn current_section_index(&self) -> (r: usize)
        ensures
            r == self.section_index(),
    {
        self.current_section
    }

    pub fn current_field_index(&self) -> (r: usize)
        ensures
            r == self.field_index(),
    {
        self.current_field
    }

    pub fn is_editing(&self) -> (r: bool)
        ensures
            r == self.editing(),
    {
        self.edit_mode
    }

    pub fn should_quit(&self) -> (r: bool)
        ensures
            r == self.quitting(),
    {
        self.should_quit
    }

    pub closed spec fn message_view(&self) -> Option<Seq<char>> {
        match self.message {
            Some(m) => Some(m@),
            None => None,
        }
    }

    /// The last status message.
    pub fn message(&self) -> (r: Option<&str>)
        ensures
            match r {
                Some(m) => self.message_view() == Some(m@),
                None => self.message_view() is None,
            },
    {
        match &self.message {
            Some(m) => Some(m.as_str()),
            None => None,
        }
    }

    pub fn active_field(&self) -> (r: Option<&str>)
        ensures
            match r {
                Some(k) => self.active_key() == Some(k@),
                None => self.active_key() is None,
            },
    {
        match &self.active_field {
            Some(k) => Some(k.as_str()),
            None => None,
        }
    }

    pub fn active_widget(&self) -> (r: Option<&ActiveWidget>)
        ensures
            match r {
                Some(w) => self.widget_view() == Some(*w),
                None => self.widget_view() is None,
            },
    {
        match &self.active_widget {
            Some(w) => Some(w),
            None => None,
        }
    }

    /// Indices of the sections whose predicate holds now.
    pub fn get_visible_sections(&self) -> (r: Vec<usize>)
        requires
            self.wf(),
        ensures
            r@ == visible_indices(self.sections(), self.values_view()),
    {
        let mut out: Vec<usize> = Vec::new();
        let mut i: usize = 0;
        while i < self.schema.sections.len()
            invariant
                i <= self.schema.sections@.len(),
                self.values.wf(),
                out@ == visible_prefix(self.schema.sections@, self.values@, i as int),
            decreases self.schema.sections.len() - i,
        {
            let shown = match &self.schema.sections[i].visible_when {
                None => true,
                Some(c) => evaluate_condition(c.as_str(), &self.values),
            };
            if shown {
                out.push(i);
            }
            i = i + 1;
        }
        out
    }

    fn position_of_section(list: &Vec<usize>, x: usize) -> (r: Option<usize>)
        ensures
            match r {
                Some(p) => position_in(list@, x, 0) == Some(p as int) && p < list@.len(),
                None => position_in(list@, x, 0) is None,
            },
    {
        let mut i: usize = 0;
        while i < list.len()
            invariant
                i <= list@.len(),
                position_in(list@, x, 0) == position_in(list@, x, i as int),
            decreases list.len() - i,
        {
            if list[i] == x {
                return Some(i);
            }
            i = i + 1;
        }
        None
    }

    /// Moves to the next visible section, wrapping around, and to its first
    /// field. From a hidden section it moves to the first visible one.
    pub fn next_section(&mut self)
        requires
            old(self).wf(),
        ensures
            final(self).wf(),
            ({
                let list = visible_indices(old(self).sections(), old(self).values_view());
                &&& final(self).section_index() == following_section(list, old(self).section_index())
                &&& final(self).field_index() == if list.len() == 0 {
                    old(self).field_index()
                } else {
                    0
                }
            }),
            final(self).values_view() == old(self).values_view(),
            final(self).sections() == old(self).sections(),
            final(self).editing() == old(self).editing(),
    {
        let visible = self.get_visible_sections();
        if visible.len() == 0 {
            return;
        }
        match Self::position_of_section(&visible, self.current_section) {
            Some(p) => {
                self.current_section = visible[(p + 1) % visible.len()];
            },
            None => {
                self.current_section = visible[0];
            },
        }
        self.current_field = 0;
    }

    /// Moves to the previous visible section, wrapping around, and to its
    /// first field. From a hidden section it moves to the first visible one.
    pub fn previous_section(&mut self)
        requires
            old(self).wf(),
        ensures
            final(self).wf(),
            ({
                let list = visible_indices(old(self).sections(), old(self).values_view());
                &&& final(self).section_index() == preceding_section(list, old(self).section_index())
                &&& final(self).field_index() == if list.len() == 0 {
                    old(self).field_index()
                } else {
                    0
                }
            }),
            final(self).values_view() == old(self).values_view(),
            final(self).sections() == old(self).sections(),
            final(self).editing() == old(self).editing(),
    {
        let visible = self.get_visible_sections();
        if visible.len() == 0 {
            return;
        }
        match Self::position_of_section(&visible, self.current_section) {
            Some(p) => {
                self.current_section = if p == 0 {
                    visible[visible.len() - 1]
                } else {
                    visible[p - 1]
                };
            },
            None => {
                self.current_section = visible[0];
            },
        }
        self.current_field = 0;
    }

    fn field_count(&self) -> (r: usize)
        ensures
            r == if self.section_index() < self.sections().len() {
                self.sections()[self.section_index() as int].fields@.len()
            } else {
                0
            },
    {
        if self.current_section < self.schema.sections.len() {
            self.schema.sections[self.current_section].fields.len()
        } else {
            0
        }
    }

    /// Moves to the next field of the section, wrapping around.
    pub fn next_field(&mut self)
        requires
            old(self).wf(),
        ensures
            final(self).wf(),
            ({
                let n = if old(self).section_index() < old(self).sections().len() {
                    old(self).sections()[old(self).section_index() as int].fields@.len() as int
                } else {
                    0
                };
                final(self).field_index() == if n > 0 {
                    (old(self).field_index() + 1) % n
                } else {
                    old(self).field_index() as int
                }
            }),
            final(self).section_index() == old(self).section_index(),
            final(self).values_view() == old(self).values_view(),
            final(self).sections() == old(self).sections(),
            final(self).editing() == old(self).editing(),
    {
        let n = self.field_count();
        if n > 0 {
            self.current_field = ((self.current_field as u128 + 1) % (n as u128)) as usize;
        }
    }

    /// Moves to the previous field of the section, wrapping around.
    pub fn previous_field(&mut self)
        requires
            old(self).wf(),
        ensures
            final(self).wf(),
            ({
                let n = if old(self).section_index() < old(self).sections().len() {
                    old(self).sections()[old(self).section_index() as int].fields@.len() as int
                } else {
                    0
                };
                final(self).field_index() == if n > 0 {
                    if old(self).field_index() == 0 {
                        n - 1
                    } else {
                        old(self).field_index() - 1
                    }
                } else {
                    old(self).field_index() as int
                }
            }),
            final(self).section_index() == old(self).section_index(),
            final(self).values_view() == old(self).values_view(),
            final(self).sections() == old(self).sections(),
            final(self).editing() == old(self).editing(),
    {
        let n = self.field_count();
        if n > 0 {
            self.current_field = if self.current_field == 0 {
                n - 1
            } else {
                self.current_field - 1
            };
        }
    }
}

pub open spec fn widget_wf(w: ActiveWidget) -> bool {
    match w {
        ActiveWidget::Text(t) => t.wf(),
        ActiveWidget::Number(n) => n.wf(),
        ActiveWidget::Dropdown(d) => d.wf(),
        ActiveWidget::Searchable(s) => s.wf(),
        ActiveWidget::Outside => true,
    }
}


/// The text a field starts from: its stored text value, else its default.
pub open spec fn seed_text(values: Map<Seq<char>, ConfigValue>, key: Seq<char>, default: Option<String>) -> Option<Seq<char>> {
    if values.contains_key(key) && values[key] is Text {
        Some(values[key]->Text_0@)
    } else {
        match default {
            Some(d) => Some(d@),
            None => None,
        }
    }
}

/// The choice a searchable dropdown starts with: the seed text, else the
/// first option, else nothing.
pub open spec fn start_choice(options: Seq<String>, seed: Option<Seq<char>>) -> Seq<char> {
    match seed {
        Some(v) => v,
        None => if options.len() > 0 {
            options[0]@
        } else {
            Seq::empty()
        },
    }
}

/// The number a number field starts from: its stored integer, else its
/// default, else zero.
pub open spec fn seed_number(values: Map<Seq<char>, ConfigValue>, key: Seq<char>, default: Option<i64>) -> i64 {
    if values.contains_key(key) && values[key] is Integer {
        values[key]->Integer_0
    } else {
        match default {
            Some(d) => d,
            None => 0,
        }
    }
}

/// A text editor, in editing, whose buffer starts from the seed text (empty
/// without one).
pub open spec fn text_editor_seeded(w: Option<ActiveWidget>, seed: Option<Seq<char>>) -> bool {
    w matches Some(ActiveWidget::Text(t)) && t.state() == crate::widget::WidgetState::Editing
        && t.buffer() == match seed {
        Some(v) => v,
        None => Seq::<char>::empty(),
    }
}

/// Where a dropdown's highlight starts: on the option equal to the seed
/// text, else on the first option.
pub open spec fn seed_index(options: Seq<String>, seed: Option<Seq<char>>) -> int {
    match seed {
        Some(v) => match position_of(options, v) {
            Some(i) => i,
            None => 0,
        },
        None => 0,
    }
}

/// The icon-free text a value is shown with.
pub open spec fn shown_bool(b: bool) -> Seq<char> {
    if b {
        seq!['\u{2713}', ' ', 't', 'r', 'u', 'e']
    } else {
        seq!['\u{2717}', ' ', 'f', 'a', 'l', 's', 'e']
    }
}

pub open spec fn shown_value(v: ConfigValue) -> Seq<char> {
    match v {
        ConfigValue::Text(s) => s@,
        ConfigValue::Integer(n) => decimal(n as int),
        ConfigValue::Number(t) => t@,
        ConfigValue::Bool(b) => shown_bool(b),
        ConfigValue::Raw(j) => j@,
    }
}

/// How a field's value reads in the field list: the stored value, else the
/// default of a string, number, boolean or enum field, else nothing.
pub open spec fn shown_field(values: Map<Seq<char>, ConfigValue>, key: Seq<char>, ft: FieldType) -> Seq<char> {
    if values.contains_key(key) {
        shown_value(values[key])
    } else {
        match ft {
            FieldType::String { default, .. } => match default {
                Some(s) => s@,
                None => Seq::empty(),
            },
            FieldType::Number { default, .. } => match default {
                Some(n) => decimal(n as int),
                None => Seq::empty(),
            },
            FieldType::Boolean { default } => shown_bool(default),
            FieldType::Enum { default, .. } => match default {
                Some(s) => s@,
                None => Seq::empty(),
            },
            _ => Seq::empty(),
        }
    }
}

fn bool_shown(b: bool) -> (r: String)
    ensures
        r@ == shown_bool(b),
{
    let mut r = String::new();
    if b {
        push_char(&mut r, '\u{2713}');
        push_char(&mut r, ' ');
        push_char(&mut r, 't');
        push_char(&mut r, 'r');
        push_char(&mut r, 'u');
        push_char(&mut r, 'e');
    } else {
        push_char(&mut r, '\u{2717}');
        push_char(&mut r, ' ');
        push_char(&mut r, 'f');
        push_char(&mut r, 'a');
        push_char(&mut r, 'l');
        push_char(&mut r, 's');
        push_char(&mut r, 'e');
    }
    r
}

/// The extension of the temporary file an external editor works on.
pub open spec fn extension_for(file_type: Option<FileTypeFilter>) -> Seq<char> {
    match file_type {
        Some(FileTypeFilter::Json) => seq!['j', 's', 'o', 'n'],
        Some(FileTypeFilter::Image) => seq!['p', 'n', 'g'],
        _ => seq!['t', 'x', 't'],
    }
}

pub fn editor_extension(file_type: Option<FileTypeFilter>) -> (r: String)
    ensures
        r@ == extension_for(file_type),
{
    let r = match file_type {
        Some(FileTypeFilter::Json) => String::from_str("json"),
        Some(FileTypeFilter::Image) => String::from_str("png"),
        _ => String::from_str("txt"),
    };
    proof {
        reveal_strlit("json");
        reveal_strlit("png");
        reveal_strlit("txt");
    }
    r
}

fn text_of(s: &str, prefix: &str) -> (r: String)
    ensures
        r@ == prefix@ + s@,
{
    let mut m = String::from_str(prefix);
    m.append(s);
    m
}

impl<P: OptionProvider> SchemaTUI<P> {
    pub closed spec fn widget_view(&self) -> Option<ActiveWidget> {
        self.active_widget
    }

    /// The option resolver, with its providers and cache.
    pub closed spec fn resolver(&self) -> OptionResolver<P> {
        self.option_resolver
    }

    /// `after` and `r` are what merging the widget result `res` for the active
    /// field gives: a confirmed value enters the value map and ends editing,
    /// discarding the widget, and is to be saved; a changed value enters the
    /// value map while editing goes on; a cancel ends editing, discarding the
    /// widget, and leaves the value map alone.
    pub open spec fn applies(&self, after: Self, res: WidgetResult, r: Action) -> bool {
        let key = self.active_key()->0;
        match res {
            WidgetResult::Confirmed(v) => r matches Action::Committed { key: k, value: w, persist: true }
                && k@ == key && w == v && after.values_view() == self.values_view().insert(key, v)
                && !after.editing() && after.widget_view() is None,
            WidgetResult::Changed(v) => r matches Action::Committed { key: k, value: w, persist: false }
                && k@ == key && w == v && after.values_view() == self.values_view().insert(key, v)
                && after.editing() && after.active_key() == self.active_key(),
            WidgetResult::Cancelled => r is Cancelled && after.values_view() == self.values_view()
                && !after.editing() && after.widget_view() is None,
            WidgetResult::Continue => r is Nothing && after.values_view() == self.values_view()
                && after.editing(),
        }
    }

    /// `after` and `r` are what one key does while editing: the active widget
    /// reports its result for the key, and that result is merged.
    pub open spec fn edit_step(&self, after: Self, key: KeyEvent, r: Action) -> bool {
        match self.widget_view() {
            Some(ActiveWidget::Text(w)) => exists|res: WidgetResult|
                #[trigger] w.reports(key, res) && self.applies(after, res, r),
            Some(ActiveWidget::Number(w)) => exists|res: WidgetResult|
                #[trigger] w.reports(key, res) && self.applies(after, res, r),
            Some(ActiveWidget::Dropdown(w)) => exists|res: WidgetResult|
                #[trigger] w.reports(key, res) && self.applies(after, res, r),
            Some(ActiveWidget::Searchable(w)) => exists|res: WidgetResult|
                #[trigger] w.reports(key, res) && self.applies(after, res, r),
            Some(ActiveWidget::Outside) => r is Nothing && after.values_view() == self.values_view()
                && after.editing(),
            None => true,
        }
    }

    /// The focused field, when the focus is on one.
    pub open spec fn focused_field(&self) -> Option<(SchemaSection, SchemaField)> {
        if self.section_index() < self.sections().len() && self.field_index()
            < self.sections()[self.section_index() as int].fields@.len() {
            let s = self.sections()[self.section_index() as int];
            Some((s, s.fields@[self.field_index() as int]))
        } else {
            None
        }
    }

    pub open spec fn focused_field_spec(&self) -> SchemaField {
        let (_, f) = self.focused_field()->0;
        f
    }

    pub open spec fn focus_is_enum(&self) -> bool {
        self.focused_field() is Some && self.focused_field_spec().field_type is Enum
    }

    pub open spec fn focus_is_path(&self) -> bool {
        self.focused_field() is Some && self.focused_field_spec().field_type is Path
    }

    pub open spec fn focused_key(&self) -> Option<Seq<char>> {
        match self.focused_field() {
            Some((s, f)) => Some(qualified(s.id@, f.id@)),
            None => None,
        }
    }

    pub fn get_current_section(&self) -> (r: Option<&SchemaSection>)
        ensures
            match r {
                Some(s) => self.section_index() < self.sections().len() && *s == self.sections()[self.section_index() as int],
                None => self.section_index() >= self.sections().len(),
            },
    {
        if self.current_section < self.schema.sections.len() {
            Some(&self.schema.sections[self.current_section])
        } else {
            None
        }
    }

    pub fn get_current_field(&self) -> (r: Option<&SchemaField>)
        ensures
            match r {
                Some(f) => self.focused_field() matches Some((_, g)) && g == *f,
                None => self.focused_field() is None,
            },
    {
        match self.get_current_section() {
            Some(s) => if self.current_field < s.fields.len() {
                Some(&s.fields[self.current_field])
            } else {
                None
            },
            None => None,
        }
    }

    /// The qualified key of the focused field; empty without one.
    pub fn get_current_field_key(&self) -> (r: String)
        ensures
            match self.focused_key() {
                Some(k) => r@ == k,
                None => r@ == Seq::<char>::empty(),
            },
    {
        match self.get_current_section() {
            Some(s) => if self.current_field < s.fields.len() {
                qualified_key(s.id.as_str(), s.fields[self.current_field].id.as_str())
            } else {
                String::new()
            },
            None => String::new(),
        }
    }

    /// The option source of the focused field, when it is an `Enum`.
    pub fn current_option_source(&self) -> (r: Option<&OptionSource>)
        ensures
            match r {
                Some(src) => self.focused_field() matches Some((_, f)) && f.field_type matches FieldType::Enum { options_source, .. } && options_source == *src,
                None => !(self.focused_field() matches Some((_, f)) && f.field_type is Enum),
            },
    {
        match self.get_current_field() {
            Some(f) => match &f.field_type {
                FieldType::Enum { options_source, .. } => Some(options_source),
                _ => None,
            },
            None => None,
        }
    }

    /// Resolves the focused field's options as far as possible at `now_ms`,
    /// against the current values.
    pub fn resolve_current_options(&self, now_ms: u64) -> (r: Option<Resolution>)
        requires
            self.wf(),
        ensures
            match r {
                Some(res) => self.focus_is_enum() && self.resolver().resolves(
                    self.focused_field_spec().field_type->Enum_options_source,
                    self.values_view(),
                    now_ms,
                    res,
                ),
                None => !self.focus_is_enum(),
            },
    {
        match self.current_option_source() {
            Some(src) => Some(self.option_resolver.resolve(src, &self.values, now_ms)),
            None => None,
        }
    }

    /// Turns a script run into options through the resolver and its cache.
    pub fn finish_script(
        &mut self,
        cache_key: String,
        cache_duration: Option<u64>,
        run: crate::resolver::ScriptRun,
        now_ms: u64,
    ) -> (r: Result<Vec<String>, ResolveError>)
        requires
            old(self).wf(),
        ensures
            final(self).wf(),
            final(self).values_view() == old(self).values_view(),
            final(self).sections() == old(self).sections(),
            final(self).section_index() == old(self).section_index(),
            final(self).field_index() == old(self).field_index(),
            final(self).editing() == old(self).editing(),
            final(self).widget_view() == old(self).widget_view(),
            final(self).active_key() == old(self).active_key(),
            old(self).resolver().finishes(final(self).resolver(), cache_key@, cache_duration, run, now_ms, r),
    {
        self.option_resolver.finish_script(cache_key, cache_duration, run, now_ms)
    }

    fn open_editing(&mut self, key: String, widget: ActiveWidget)
        requires
            old(self).wf(),
            widget_wf(widget),
        ensures
            final(self).wf(),
            final(self).editing(),
            final(self).active_key() == Some(key@),
            final(self).widget_view() == Some(widget),
            final(self).values_view() == old(self).values_view(),
            final(self).sections() == old(self).sections(),
            final(self).section_index() == old(self).section_index(),
            final(self).field_index() == old(self).field_index(),
            final(self).quitting() == old(self).quitting(),
    {
        self.edit_mode = true;
        self.active_field = Some(key);
        self.active_widget = Some(widget);
    }

    /// Activates the focused field: a text, path or number field opens its
    /// editor seeded from the value map (else its default); a boolean flips
    /// and is committed at once; a fractional field is handed to the caller;
    /// an enumerated field first needs its options.
    pub fn activate_current_field(&mut self) -> (r: Action)
        requires
            old(self).wf(),
        ensures
            final(self).wf(),
            final(self).sections() == old(self).sections(),
            final(self).section_index() == old(self).section_index(),
            final(self).field_index() == old(self).field_index(),
            (old(self).editing() || old(self).focused_field() is None) ==> r is Nothing && final(
                self).values_view() == old(self).values_view() && final(self).editing() == old(self).editing(),
            (!old(self).editing() && old(self).focused_field() is Some) ==> ({
                let f = old(self).focused_field_spec();
                let key = old(self).focused_key()->0;
                match f.field_type {
                    FieldType::Boolean { default } => {
                        let was = if old(self).values_view().contains_key(key) && old(
                            self).values_view()[key] is Bool {
                            old(self).values_view()[key]->Bool_0
                        } else {
                            default
                        };
                        &&& r matches Action::Committed { key: k, value: v, persist: true }
                        &&& k@ == key && v == ConfigValue::Bool(!was)
                        &&& final(self).values_view() == old(self).values_view().insert(key, ConfigValue::Bool(!was))
                        &&& !final(self).editing()
                    },
                    FieldType::Enum { .. } => r is NeedOptions && final(self).values_view() == old(
                        self).values_view() && !final(self).editing(),
                    FieldType::Float { .. } => r matches Action::EditOutside { key: k, .. } && k@ == key
                        && final(self).editing() && final(self).active_key() == Some(key)
                        && final(self).values_view() == old(self).values_view(),
                    FieldType::String { default, .. } => r is Nothing && final(self).editing()
                        && final(self).active_key() == Some(key) && final(self).values_view() == old(
                        self).values_view() && text_editor_seeded(
                        final(self).widget_view(),
                        seed_text(old(self).values_view(), key, default),
                    ),
                    FieldType::Path { default, .. } => r is Nothing && final(self).editing()
                        && final(self).active_key() == Some(key) && final(self).values_view() == old(
                        self).values_view() && text_editor_seeded(
                        final(self).widget_view(),
                        seed_text(old(self).values_view(), key, default),
                    ),
                    FieldType::Number { default, min, max } => r is Nothing && final(self).editing()
                        && final(self).active_key() == Some(key) && final(self).values_view() == old(
                        self).values_view() && (final(self).widget_view() matches Some(
                        ActiveWidget::Number(w),
                    ) && w.state() == crate::widget::WidgetState::Editing && w.buffer() == decimal(
                        seed_number(old(self).values_view(), key, default) as int,
                    ) && w.min() == min && w.max() == max),
                }
            }),
    {
        if self.edit_mode {
            return Action::Nothing;
        }
        if self.current_section >= self.schema.sections.len() {
            return Action::Nothing;
        }
        if self.current_field >= self.schema.sections[self.current_section].fields.len() {
            return Action::Nothing;
        }
        let key = self.get_current_field_key();
        let section = &self.schema.sections[self.current_section];
        let field = &section.fields[self.current_field];
        match &field.field_type {
            FieldType::String { default, .. } | FieldType::Path { default, .. } => {
                let mut w = match self.values.get(key.as_str()) {
                    Some(ConfigValue::Text(s)) => TextInput::new(field.label.as_str(), s.as_str()),
                    _ => match default {
                        Some(d) => TextInput::new(field.label.as_str(), d.as_str()),
                        None => TextInput::new(field.label.as_str(), ""),
                    },
                };
                proof {
                    reveal_strlit("");
                }
                w.activate();
                let ghost seed = seed_text(self.values@, key@, *default);
                assert(w.state() == crate::widget::WidgetState::Editing);
                assert(seed is Some ==> w.buffer() == seed->0);
                assert(seed is None ==> w.buffer() == Seq::<char>::empty());
                assert(text_editor_seeded(Some(ActiveWidget::Text(w)), seed));
                self.open_editing(key, ActiveWidget::Text(w));
                Action::Nothing
            },
            FieldType::Number { default, min, max } => {
                let initial: i64 = match self.values.get(key.as_str()) {
                    Some(ConfigValue::Integer(n)) => *n,
                    _ => match default {
                        Some(d) => *d,
                        None => 0,
                    },
                };
                let mut w = NumberInput::new(field.label.as_str(), initial, *min, *max);
                w.activate();
                assert(w.buffer() == decimal(seed_number(self.values@, key@, *default) as int));
                self.open_editing(key, ActiveWidget::Number(w));
                Action::Nothing
            },
            FieldType::Boolean { default } => {
                let was: bool = match self.values.get(key.as_str()) {
                    Some(ConfigValue::Bool(b)) => *b,
                    _ => *default,
                };
                let mut t = Toggle::new(field.label.as_str(), was);
                t.activate();
                let value = t.get_value();
                self.values.insert(key.clone(), value.duplicate());
                self.message = Some(text_of(key.as_str(), "Saved "));
                Action::Committed { key, value, persist: true }
            },
            FieldType::Float { .. } => {
                let value = match self.values.get(key.as_str()) {
                    Some(v) => Some(v.duplicate()),
                    None => None,
                };
                self.open_editing(key.clone(), ActiveWidget::Outside);
                Action::EditOutside { key, value }
            },
            FieldType::Enum { .. } => Action::NeedOptions,
        }
    }

    /// Activates the focused enumerated field with its resolved options; a
    /// failed resolution leaves an empty list. The highlight starts on the
    /// option equal to the stored text value, else the default.
    pub fn activate_with_options(&mut self, resolved: Result<Vec<String>, ResolveError>) -> (r: Action)
        requires
            old(self).wf(),
        ensures
            final(self).wf(),
            r is Nothing,
            final(self).values_view() == old(self).values_view(),
            final(self).sections() == old(self).sections(),
            final(self).section_index() == old(self).section_index(),
            final(self).field_index() == old(self).field_index(),
            !(!old(self).editing() && old(self).focus_is_enum())
                ==> final(self).editing() == old(self).editing() && final(self).widget_view() == old(self).widget_view(),
            (!old(self).editing() && old(self).focus_is_enum())
                ==> ({
                let f = old(self).focused_field_spec();
                let key = old(self).focused_key()->0;
                let options = match resolved {
                    Ok(v) => v@,
                    Err(_) => Seq::<String>::empty(),
                };
                let seed = seed_text(old(self).values_view(), key, f.field_type->Enum_default);
                &&& final(self).editing()
                &&& final(self).active_key() == Some(key)
                &&& (f.ui_widget != UIWidget::DropdownSearchable ==> (final(self).widget_view() matches Some(ActiveWidget::Dropdown(d))
                    && d.options() == options && d.selected() == seed_index(options, seed)
                    && d.state() == crate::widget::WidgetState::Editing))
                &&& (f.ui_widget == UIWidget::DropdownSearchable ==> (final(self).widget_view() matches Some(ActiveWidget::Searchable(s))
                    && s.all_options() == options && s.filtered() == options
                    && s.current() == start_choice(options, seed)
                    && s.state() == crate::widget::WidgetState::Editing))
            }),
    {
        if self.edit_mode {
            return Action::Nothing;
        }
        if self.current_section >= self.schema.sections.len() {
            return Action::Nothing;
        }
        if self.current_field >= self.schema.sections[self.current_section].fields.len() {
            return Action::Nothing;
        }
        let key = self.get_current_field_key();
        let section = &self.schema.sections[self.current_section];
        let field = &section.fields[self.current_field];
        let default = match &field.field_type {
            FieldType::Enum { default, .. } => default,
            _ => {
                return Action::Nothing;
            },
        };
        let options = match resolved {
            Ok(v) => v,
            Err(_) => Vec::new(),
        };
        let initial: Option<String> = match self.values.get(key.as_str()) {
            Some(ConfigValue::Text(s)) => Some(s.clone()),
            _ => match default {
                Some(d) => Some(d.clone()),
                None => None,
            },
        };
        if field.ui_widget == UIWidget::DropdownSearchable {
            let mut w = SearchableDropdown::new(field.label.as_str(), options, initial);
            w.activate();
            self.open_editing(key, ActiveWidget::Searchable(w));
        } else {
            let mut w = Dropdown::new(field.label.as_str(), options, initial);
            w.activate();
            self.open_editing(key, ActiveWidget::Dropdown(w));
        }
        Action::Nothing
    }

    fn close_editing(&mut self)
        requires
            old(self).wf(),
        ensures
            final(self).wf(),
            !final(self).editing(),
            final(self).widget_view() is None,
            final(self).active_key() is None,
            final(self).values_view() == old(self).values_view(),
            final(self).sections() == old(self).sections(),
            final(self).section_index() == old(self).section_index(),
            final(self).field_index() == old(self).field_index(),
            final(self).quitting() == old(self).quitting(),
    {
        self.edit_mode = false;
        self.active_field = None;
        self.active_widget = None;
    }

    /// Merges what the active widget reported. A confirmed value goes into
    /// the value map and ends editing (the widget is discarded, to be rebuilt
    /// from the value map next time) and is to be saved; a changed value goes
    /// into the value map for live preview, editing goes on; a cancel ends
    /// editing and leaves the value map alone.
    pub fn apply_widget_result(&mut self, result: WidgetResult) -> (r: Action)
        requires
            old(self).wf(),
        ensures
            final(self).wf(),
            final(self).sections() == old(self).sections(),
            final(self).section_index() == old(self).section_index(),
            final(self).field_index() == old(self).field_index(),
            !old(self).editing() ==> r is Nothing && final(self).values_view() == old(self).values_view()
                && !final(self).editing(),
            old(self).editing() ==> old(self).applies(*final(self), result, r),
    {
        if !self.edit_mode {
            return Action::Nothing;
        }
        let key = match &self.active_field {
            Some(k) => k.clone(),
            None => {
                return Action::Nothing;
            },
        };
        match result {
            WidgetResult::Confirmed(v) => {
                self.values.insert(key.clone(), v.duplicate());
                self.close_editing();
                self.message = Some(text_of(key.as_str(), "Saved "));
                Action::Committed { key, value: v, persist: true }
            },
            WidgetResult::Changed(v) => {
                self.values.insert(key.clone(), v.duplicate());
                Action::Committed { key, value: v, persist: false }
            },
            WidgetResult::Cancelled => {
                self.close_editing();
                self.message = Some(String::from_str("Cancelled"));
                Action::Cancelled
            },
            WidgetResult::Continue => Action::Nothing,
        }
    }

    /// Routes a key to the active widget while editing, or to navigation.
    pub fn handle_key(&mut self, key: KeyEvent) -> (r: Action)
        requires
            old(self).wf(),
        ensures
            final(self).wf(),
            final(self).sections() == old(self).sections(),
            !old(self).editing() && (key.code == KeyCode::Char('q') || key.code == KeyCode::Esc || (
            key.code == KeyCode::Char('c') && key.ctrl)) ==> r is Quit && final(self).quitting(),
            !old(self).editing() && (key.code == KeyCode::Tab || key.code == KeyCode::Right
                || key.code == KeyCode::Char('l')) ==> final(self).section_index() == following_section(
                visible_indices(old(self).sections(), old(self).values_view()),
                old(self).section_index(),
            ),
            !old(self).editing() && (key.code == KeyCode::BackTab || key.code == KeyCode::Left
                || key.code == KeyCode::Char('h')) ==> final(self).section_index() == preceding_section(
                visible_indices(old(self).sections(), old(self).values_view()),
                old(self).section_index(),
            ),
            !old(self).editing() ==> final(self).values_view() == old(self).values_view() || r is Committed,
            !old(self).editing() && (key.code == KeyCode::Down || key.code == KeyCode::Char('j')) ==> ({
                let n = if old(self).section_index() < old(self).sections().len() {
                    old(self).sections()[old(self).section_index() as int].fields@.len() as int
                } else {
                    0
                };
                &&& r is Nothing
                &&& final(self).section_index() == old(self).section_index()
                &&& final(self).field_index() == if n > 0 {
                    (old(self).field_index() + 1) % n
                } else {
                    old(self).field_index() as int
                }
            }),
            !old(self).editing() && (key.code == KeyCode::Up || key.code == KeyCode::Char('k')) ==> ({
                let n = if old(self).section_index() < old(self).sections().len() {
                    old(self).sections()[old(self).section_index() as int].fields@.len() as int
                } else {
                    0
                };
                &&& r is Nothing
                &&& final(self).section_index() == old(self).section_index()
                &&& final(self).field_index() == if n > 0 {
                    if old(self).field_index() == 0 {
                        n - 1
                    } else {
                        old(self).field_index() - 1
                    }
                } else {
                    old(self).field_index() as int
                }
            }),
            old(self).editing() ==> old(self).edit_step(*final(self), key, r),
    {
        if self.edit_mode {
            return self.handle_edit_mode(key);
        }
        match key.code {
            KeyCode::Char('q') | KeyCode::Esc => {
                self.should_quit = true;
                Action::Quit
            },
            KeyCode::Char('c') if key.ctrl => {
                self.should_quit = true;
                Action::Quit
            },
            KeyCode::Tab | KeyCode::Right | KeyCode::Char('l') => {
                self.next_section();
                Action::Nothing
            },
            KeyCode::BackTab | KeyCode::Left | KeyCode::Char('h') => {
                self.previous_section();
                Action::Nothing
            },
            KeyCode::Down | KeyCode::Char('j') => {
                self.next_field();
                Action::Nothing
            },
            KeyCode::Up | KeyCode::Char('k') => {
                self.previous_field();
                Action::Nothing
            },
            KeyCode::Enter | KeyCode::Char(' ') => self.activate_current_field(),
            KeyCode::Char('e') => self.open_external_editor(),
            _ => Action::Nothing,
        }
    }

    fn handle_edit_mode(&mut self, key: KeyEvent) -> (r: Action)
        requires
            old(self).wf(),
            old(self).editing(),
        ensures
            final(self).wf(),
            final(self).sections() == old(self).sections(),
            old(self).edit_step(*final(self), key, r),
    {
        let taken = self.active_widget.take();
        match taken {
            Some(ActiveWidget::Text(mut w)) => {
                let ghost w0 = w;
                let res = w.handle_key(key);
                assert(w0.reports(key, res));
                self.active_widget = Some(ActiveWidget::Text(w));
                self.apply_widget_result(res)
            },
            Some(ActiveWidget::Number(mut w)) => {
                let ghost w0 = w;
                let res = w.handle_key(key);
                assert(w0.reports(key, res));
                self.active_widget = Some(ActiveWidget::Number(w));
                self.apply_widget_result(res)
            },
            Some(ActiveWidget::Dropdown(mut w)) => {
                let ghost w0 = w;
                let res = w.handle_key(key);
                assert(w0.reports(key, res));
                self.active_widget = Some(ActiveWidget::Dropdown(w));
                self.apply_widget_result(res)
            },
            Some(ActiveWidget::Searchable(mut w)) => {
                let ghost w0 = w;
                let res = w.handle_key(key);
                assert(w0.reports(key, res));
                self.active_widget = Some(ActiveWidget::Searchable(w));
                self.apply_widget_result(res)
            },
            Some(ActiveWidget::Outside) => {
                self.active_widget = Some(ActiveWidget::Outside);
                Action::Nothing
            },
            None => {
                self.active_widget = None;
                Action::Nothing
            },
        }
    }

    /// For a focused path field, asks the caller to open its current text in
    /// an external editor.
    pub fn open_external_editor(&self) -> (r: Action)
        requires
            self.wf(),
        ensures
            self.focus_is_path() ==> (r matches Action::OpenEditor { key: k, extension: e, current: c }
                && c@ == (if self.values_view().contains_key(k@) && self.values_view()[k@] is Text {
                    self.values_view()[k@]->Text_0@
                } else {
                    Seq::<char>::empty()
                })
                && k@ == self.focused_key()->0 && e@ == extension_for(
                self.focused_field_spec().field_type->Path_file_type,
            )),
            !self.focus_is_path() ==> r is Nothing,
    {
        match self.get_current_field() {
            Some(f) => match &f.field_type {
                FieldType::Path { file_type, .. } => {
                    let key = self.get_current_field_key();
                    let current = match self.values.get(key.as_str()) {
                        Some(ConfigValue::Text(s)) => s.clone(),
                        _ => String::new(),
                    };
                    Action::OpenEditor { key, current, extension: editor_extension(*file_type) }
                },
                _ => Action::Nothing,
            },
            None => Action::Nothing,
        }
    }

    /// Takes what an external editor produced for `key`: a new text is
    /// committed as a confirmed edit, trimmed; nothing changes otherwise.
    pub fn finish_external_edit(&mut self, key: String, new_value: Option<String>) -> (r: Action)
        requires
            old(self).wf(),
        ensures
            final(self).wf(),
            final(self).sections() == old(self).sections(),
            final(self).editing() == old(self).editing(),
            match new_value {
                Some(v) => r matches Action::Committed { key: k, value: ConfigValue::Text(t), persist: true }
                    && k@ == key@ && t@ == crate::text::trim(v@)
                    && final(self).values_view() == old(self).values_view().insert(key@, ConfigValue::Text(t)),
                None => r is Nothing && final(self).values_view() == old(self).values_view(),
            },
    {
        match new_value {
            Some(v) => {
                let cs = crate::text::chars_of(v.as_str());
                let t = crate::text::trimmed(&cs);
                let text = crate::text::string_of(&t);
                self.values.insert(key.clone(), ConfigValue::Text(text.clone()));
                self.message = Some(text_of(key.as_str(), "Updated from external editor: "));
                Action::Committed { key, value: ConfigValue::Text(text), persist: true }
            },
            None => {
                self.message = Some(String::from_str("External editor cancelled or no changes"));
                Action::Nothing
            },
        }
    }

    /// How the value of the field `field` under `key` reads in the list.
    pub fn get_value_display(&self, key: &str, field: &SchemaField) -> (r: String)
        requires
            self.wf(),
        ensures
            r@ == shown_field(self.values_view(), key@, field.field_type),
    {
        match self.values.get(key) {
            Some(v) => match v {
                ConfigValue::Text(s) => s.clone(),
                ConfigValue::Integer(n) => i64_to_string(*n),
                ConfigValue::Number(t) => t.clone(),
                ConfigValue::Bool(b) => bool_shown(*b),
                ConfigValue::Raw(j) => j.clone(),
            },
            None => match &field.field_type {
                FieldType::String { default, .. } => match default {
                    Some(s) => s.clone(),
                    None => String::new(),
                },
                FieldType::Number { default, .. } => match default {
                    Some(n) => i64_to_string(*n),
                    None => String::new(),
                },
                FieldType::Boolean { default } => bool_shown(*default),
                FieldType::Enum { default, .. } => match default {
                    Some(s) => s.clone(),
                    None => String::new(),
                },
                _ => String::new(),
            },
        }
    }
}

} // verus!
