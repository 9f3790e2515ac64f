//! A boolean switch. Activating it flips the value at once; it never lingers
//! in an editing state.
use vstd::prelude::*;
use crate::value::ConfigValue;
use crate::widget::{KeyCode, KeyEvent, WidgetResult};

verus! {

pub struct Toggle {
    value: bool,
    label: String,
}

impl Toggle {
    pub fn label_text(&self) -> (r: &str)
        ensures
            r@ == self.label(),
    {
        self.label.as_str()
    }

    pub closed spec fn value(&self) -> bool {
        self.value
    }

    pub closed spec fn label(&self) -> Seq<char> {
        self.label@
    }

    pub fn new(label: &str, initial_value: bool) -> (r: Toggle)
        ensures
            r.value() == initial_value,
            r.label() == label@,
    {
        Toggle { value: initial_value, label: label.to_owned() }
    }

    pub fn toggle(&mut self)
        ensures
            final(self).value() == !old(self).value(),
            final(self).label() == old(self).label(),
    {
        self.value = !self.value;
    }

    /// Enter or space flips the value and confirms it.
    pub fn handle_key(&mut self, key: KeyEvent) -> (r: WidgetResult)
        ensures
            final(self).label() == old(self).label(),
            (key.code == KeyCode::Enter || key.code == KeyCode::Char(' ')) ==> final(self).value()
                == !old(self).value() && r == WidgetResult::Confirmed(
                ConfigValue::Bool(final(self).value()),
            ),
            !(key.code == KeyCode::Enter || key.code == KeyCode::Char(' ')) ==> final(self).value()
                == old(self).value() && r == WidgetResult::Continue,
    {
        match key.code {
            KeyCode::Enter | KeyCode::Char(' ') => {
                self.toggle();
                WidgetResult::Confirmed(self.get_value())
            },
            _ => WidgetResult::Continue,
        }
    }

    pub fn get_value(&self) -> (r: ConfigValue)
        ensures
            r == ConfigValue::Bool(self.value()),
    {
        ConfigValue::Bool(self.value)
    }

    /// Takes a boolean value; other values are ignored.
    pub fn set_value(&mut self, value: ConfigValue)
        ensures
            final(self).label() == old(self).label(),
            match value {
                ConfigValue::Bool(b) => final(self).value() == b,
                _ => final(self).value() == old(self).value(),
            },
    {
        match value {
            ConfigValue::Bool(b) => {
                self.value = b;
            },
            _ => {},
        }
    }

    /// A toggle keeps no editing state, so there is nothing to reset.
    pub fn reset(&mut self)
        ensures
            *final(self) == *old(self),
    {
    }

    /// Activation flips the value immediately.
    pub fn activate(&mut self)
        ensures
            final(self).value() == !old(self).value(),
            final(self).label() == old(self).label(),
    {
        self.toggle();
    }
}

} // verus!
