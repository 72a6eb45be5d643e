//! The configuration that an OAuth client is built from: values, tables of
//! values, and the errors that reading them can give.

use vstd::prelude::*;

use crate::text::str_eq;

verus! {

/// A value of the configuration, as far as this crate reads it: text and
/// tables in full, and of every other value the name of its kind.
#[derive(Debug)]
pub enum ConfigValue {
    /// Text.
    String(String),
    /// A table of values.
    Table(ConfigTable),
    /// A value that is neither text nor a table, such as a number or an
    /// array: `Other("integer")`, `Other("array")`.
    Other(&'static str),
}

/// A table of the configuration: values under names, at most one under each.
#[derive(Debug)]
pub struct ConfigTable {
    entries: Vec<(String, ConfigValue)>,
}

/// Why a configuration could not be read.
#[derive(Clone, Debug, PartialEq, Eq)]
pub enum ConfigError {
    /// Nothing stands under the name.
    Missing(String),
    /// The value under `key` is not of the `expected` kind.
    BadType { key: String, expected: &'static str, actual: &'static str },
}

/// What a `ConfigError` says.
pub enum ConfigFault {
    Missing(Seq<char>),
    BadType { key: Seq<char>, expected: Seq<char>, actual: Seq<char> },
}

impl View for ConfigError {
    type V = ConfigFault;

    open spec fn view(&self) -> ConfigFault {
        match self {
            ConfigError::Missing(key) => ConfigFault::Missing(key@),
            ConfigError::BadType { key, expected, actual } => ConfigFault::BadType {
                key: key@,
                expected: expected@,
                actual: actual@,
            },
        }
    }
}

/// The map that a list of entries stands for: a later entry replaces an
/// earlier one of the same name.
spec fn entries_map(entries: Seq<(String, ConfigValue)>) -> Map<Seq<char>, ConfigValue>
    decreases entries.len(),
{
    if entries.len() == 0 {
        Map::empty()
    } else {
        entries_map(entries.drop_last()).insert(entries.last().0@, entries.last().1)
    }
}

impl ConfigValue {
    /// The name of the value's kind.
    pub open spec fn kind(&self) -> Seq<char> {
        match self {
            ConfigValue::String(_) => "string"@,
            ConfigValue::Table(_) => "table"@,
            ConfigValue::Other(kind) => kind@,
        }
    }

    /// The name of the value's kind, as error messages give it.
    pub fn type_str(&self) -> (name: &'static str)
        ensures
            name@ == self.kind(),
    {
        match self {
            ConfigValue::String(_) => "string",
            ConfigValue::Table(_) => "table",
            ConfigValue::Other(kind) => kind,
        }
    }

    /// The text, if the value is text.
    pub fn as_str(&self) -> (text: Option<&str>)
        ensures
            match text {
                Some(s) => self matches ConfigValue::String(held) && held@ == s@,
                None => !(self is String),
            },
    {
        match self {
            ConfigValue::String(s) => Some(s.as_str()),
            _ => None,
        }
    }

    /// The table, if the value is a table.
    pub fn as_table(&self) -> (table: Option<&ConfigTable>)
        ensures
            match table {
                Some(t) => *self == ConfigValue::Table(*t),
                None => !(self is Table),
            },
    {
        match self {
            ConfigValue::Table(t) => Some(t),
            _ => None,
        }
    }
}

impl View for ConfigTable {
    type V = Map<Seq<char>, ConfigValue>;

    closed spec fn view(&self) -> Map<Seq<char>, ConfigValue> {
        entries_map(self.entries@)
    }
}

impl ConfigTable {
    /// The empty table.
    pub fn new() -> (table: ConfigTable)
        ensures
            table@ == Map::<Seq<char>, ConfigValue>::empty(),
    {
        ConfigTable { entries: Vec::new() }
    }

    /// Puts `value` under `key`, in place of what stood there.
    pub fn insert(&mut self, key: String, value: ConfigValue)
        ensures
            final(self)@ == old(self)@.insert(key@, value),
    {
        proof {
            assert(self.entries@.push((key, value)).drop_last() == self.entries@);
        }
        self.entries.push((key, value));
    }

    /// The value under `key`, if there is one.
    pub fn get(&self, key: &str) -> (value: Option<&ConfigValue>)
        ensures
            match value {
                Some(v) => self@.get(key@) == Some(*v),
                None => self@.get(key@) is None,
            },
    {
        let mut i: usize = self.entries.len();
        proof {
            assert(self.entries@.take(i as int) == self.entries@);
        }
        while i > 0
            invariant
                i <= self.entries@.len(),
                self@.get(key@) == entries_map(self.entries@.take(i as int)).get(key@),
            decreases i,
        {
            proof {
                assert(self.entries@.take(i as int).drop_last() == self.entries@.take(i - 1));
            }
            i -= 1;
            if str_eq(self.entries[i].0.as_str(), key) {
                return Some(&self.entries[i].1);
            }
        }
        None
    }
}

/// What `get_config_string` gives for a table and a key: the text under the
/// key, or the reason why there is none to give.
pub open spec fn config_string(table: Map<Seq<char>, ConfigValue>, key: Seq<char>) -> Result<
    Seq<char>,
    ConfigFault,
> {
    match table.get(key) {
        None => Err(ConfigFault::Missing(key)),
        Some(ConfigValue::String(text)) => if text@.len() > 0 {
            Ok(text@)
        } else {
            Err(
                ConfigFault::BadType {
                    key,
                    expected: "non-empty string"@,
                    actual: "empty string"@,
                },
            )
        },
        Some(other) => Err(ConfigFault::BadType { key, expected: "string"@, actual: other.kind() }),
    }
}

/// Reads the text under `key`. The key must be there, and hold text that is
/// not empty.
pub fn get_config_string(table: &ConfigTable, key: &str) -> (r: Result<String, ConfigError>)
    ensures
        match r {
            Ok(text) => config_string(table@, key@) == Ok::<Seq<char>, ConfigFault>(text@),
            Err(e) => config_string(table@, key@) == Err::<Seq<char>, ConfigFault>(e@),
        },
{
    let value = match table.get(key) {
        Some(value) => value,
        None => {
            return Err(ConfigError::Missing(key.to_owned()));
        },
    };
    match value.as_str() {
        Some(text) => {
            if text.is_empty() {
                Err(
                    ConfigError::BadType {
                        key: key.to_owned(),
                        expected: "non-empty string",
                        actual: "empty string",
                    },
                )
            } else {
                Ok(text.to_owned())
            }
        },
        None => Err(
            ConfigError::BadType {
                key: key.to_owned(),
                expected: "string",
                actual: value.type_str(),
            },
        ),
    }
}

} // verus!
