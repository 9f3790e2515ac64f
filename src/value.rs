//! Dynamically typed configuration values and the value map that holds them,
//! keyed by qualified key (`section_id.field_id`).
use vstd::prelude::*;
use crate::text::{decimal, i64_to_string};
use crate::assoc::{find_key, keys_unique, lemma_map_of_at, lemma_map_of_has, lemma_map_of_update, lemma_unique_len, map_of};

verus! {

/// One configuration value.
#[derive(Debug, PartialEq, Eq)]
pub enum ConfigValue {
    Bool(bool),
    /// A number that fits in `i64`.
    Integer(i64),
    /// Any other number (a fraction, or an integer beyond `i64`), kept by its
    /// decimal text.
    Number(String),
    Text(String),
    /// A list or an empty value, kept by its JSON text; the engine never
    /// interprets it.
    Raw(String),
}

impl ConfigValue {
    /// A copy equal to `self`.
    pub fn duplicate(&self) -> (r: ConfigValue)
        ensures
            r == *self,
    {
        match self {
            ConfigValue::Bool(b) => ConfigValue::Bool(*b),
            ConfigValue::Integer(n) => ConfigValue::Integer(*n),
            ConfigValue::Number(t) => ConfigValue::Number(t.clone()),
            ConfigValue::Text(s) => ConfigValue::Text(s.clone()),
            ConfigValue::Raw(j) => ConfigValue::Raw(j.clone()),
        }
    }

    pub fn as_str(&self) -> (r: Option<&str>)
        ensures
            match *self {
                ConfigValue::Text(s) => r is Some && r->0@ == s@,
                _ => r is None,
            },
    {
        match self {
            ConfigValue::Text(s) => Some(s.as_str()),
            _ => None,
        }
    }

    pub fn as_i64(&self) -> (r: Option<i64>)
        ensures
            match *self {
                ConfigValue::Integer(n) => r == Some(n),
                _ => r is None,
            },
    {
        match self {
            ConfigValue::Integer(n) => Some(*n),
            _ => None,
        }
    }

    pub fn as_bool(&self) -> (r: Option<bool>)
        ensures
            match *self {
                ConfigValue::Bool(b) => r == Some(b),
                _ => r is None,
            },
    {
        match self {
            ConfigValue::Bool(b) => Some(*b),
            _ => None,
        }
    }
}

/// The text that stands for a value inside a command: strings as they are,
/// numbers in decimal form, booleans as `true` / `false`, anything else (and
/// a missing value) as the empty string.
pub open spec fn value_text(v: Option<ConfigValue>) -> Seq<char> {
    match v {
        Some(ConfigValue::Text(s)) => s@,
        Some(ConfigValue::Integer(n)) => decimal(n as int),
        Some(ConfigValue::Number(t)) => t@,
        Some(ConfigValue::Bool(b)) => if b {
            seq!['t', 'r', 'u', 'e']
        } else {
            seq!['f', 'a', 'l', 's', 'e']
        },
        _ => Seq::empty(),
    }
}

pub fn value_to_text(v: Option<&ConfigValue>) -> (r: String)
    ensures
        r@ == value_text(match v {
            Some(x) => Some(*x),
            None => None,
        }),
{
    match v {
        Some(ConfigValue::Text(s)) => s.clone(),
        Some(ConfigValue::Integer(n)) => i64_to_string(*n),
        Some(ConfigValue::Number(t)) => t.clone(),
        Some(ConfigValue::Bool(b)) => {
            let r = if *b {
                String::from_str("true")
            } else {
                String::from_str("false")
            };
            proof {
                reveal_strlit("true");
                reveal_strlit("false");
            }
            r
        },
        _ => String::new(),
    }
}

/// The authoritative mapping from qualified key to value.
pub struct ValueMap {
    entries: Vec<(String, ConfigValue)>,
}

impl View for ValueMap {
    type V = Map<Seq<char>, ConfigValue>;

    closed spec fn view(&self) -> Map<Seq<char>, ConfigValue> {
        map_of(self.entries@)
    }
}

impl ValueMap {
    /// Keys are unique among the entries.
    pub closed spec fn wf(&self) -> bool {
        keys_unique(self.entries@)
    }

    pub fn new() -> (r: ValueMap)
        ensures
            r.wf(),
            r@ == Map::<Seq<char>, ConfigValue>::empty(),
    {
        ValueMap { entries: Vec::new() }
    }

    fn find(&self, key: &str) -> (r: Option<usize>)
        requires
            self.wf(),
        ensures
            match r {
                Some(i) => i < self.entries@.len() && self.entries@[i as int].0@ == key@,
                None => !self@.contains_key(key@),
            },
    {
        find_key(&self.entries, key)
    }

    pub fn contains_key(&self, key: &str) -> (r: bool)
        requires
            self.wf(),
        ensures
            r == self@.contains_key(key@),
    {
        match self.find(key) {
            Some(i) => {
                proof {
                    lemma_map_of_at(self.entries@, i as int);
                }
                true
            },
            None => false,
        }
    }

    pub fn get(&self, key: &str) -> (r: Option<&ConfigValue>)
        requires
            self.wf(),
        ensures
            match r {
                Some(v) => self@.contains_key(key@) && *v == self@[key@],
                None => !self@.contains_key(key@),
            },
    {
        match self.find(key) {
            Some(i) => {
                proof {
                    lemma_map_of_at(self.entries@, i as int);
                }
                Some(&self.entries[i].1)
            },
            None => None,
        }
    }

    pub fn insert(&mut self, key: String, value: ConfigValue)
        requires
            old(self).wf(),
        ensures
            final(self).wf(),
            final(self)@ == old(self)@.insert(key@, value),
    {
        match self.find(key.as_str()) {
            Some(i) => {
                proof {
                    lemma_map_of_update(self.entries@, i as int, (key, value));
                }
                self.entries.set(i, (key, value));
            },
            None => {
                proof {
                    lemma_map_of_has(self.entries@, key@);
                }
                let ghost old_e = self.entries@;
                self.entries.push((key, value));
                assert(self.entries@.drop_last() == old_e);
            },
        }
    }

    pub fn len(&self) -> (r: usize)
        requires
            self.wf(),
        ensures
            r == self@.len(),
    {
        proof {
            lemma_unique_len(self.entries@);
        }
        self.entries.len()
    }

    /// All entries, in the order in which their keys first arrived.
    pub fn entries(&self) -> (r: &[(String, ConfigValue)])
        ensures
            map_of(r@) == self@,
    {
        self.entries.as_slice()
    }
}

} // verus!
