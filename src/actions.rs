//! Actions that edit a field's value outside the widgets: an external editor
//! or a shell command. Running them is the caller's part; deciding what the
//! run means for the value is here.
use vstd::prelude::*;
use crate::assoc::str_equal;
use crate::text::{chars_of, string_of_range, trim, trim_bounds};

verus! {

/// An action bound to a field.
pub enum FieldAction {
    /// Edit the value in `editor`, through a temporary file with this
    /// extension.
    ExternalEditor { editor: String, extension: String },
    /// Run a shell command that sees the value as `CURRENT_VALUE` and prints
    /// the new one.
    CustomCommand { command: String },
}

/// How a run of an action ended.
pub struct ActionOutcome {
    /// The editor or command exited successfully.
    pub success: bool,
    /// The edited file's content, or the command's standard output.
    pub output: String,
}

impl FieldAction {
    /// The new value that a run produced, if it changed anything. An editor's
    /// file is taken as it is; a command's output is trimmed, and an empty
    /// one changes nothing.
    pub fn execute(&self, current_value: &str, outcome: ActionOutcome) -> (r: Option<String>)
        ensures
            match *self {
                FieldAction::ExternalEditor { .. } => if outcome.success && outcome.output@
                    != current_value@ {
                    r is Some && r->0@ == outcome.output@
                } else {
                    r is None
                },
                FieldAction::CustomCommand { .. } => {
                    let t = trim(outcome.output@);
                    if outcome.success && t != current_value@ && t.len() > 0 {
                        r is Some && r->0@ == t
                    } else {
                        r is None
                    }
                },
            },
    {
        if !outcome.success {
            return None;
        }
        match self {
            FieldAction::ExternalEditor { .. } => {
                if str_equal(outcome.output.as_str(), current_value) {
                    None
                } else {
                    Some(outcome.output)
                }
            },
            FieldAction::CustomCommand { .. } => {
                let cs = chars_of(outcome.output.as_str());
                let (lo, hi) = trim_bounds(&cs, 0, cs.len());
                assert(cs@.subrange(0, cs@.len() as int) == cs@);
                let t = string_of_range(&cs, lo, hi);
                if lo < hi && !str_equal(t.as_str(), current_value) {
                    Some(t)
                } else {
                    None
                }
            },
        }
    }
}

} // verus!
