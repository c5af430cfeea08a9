//! The configuration as a tree of plain values, and the check that every
//! field the worker needs is present and of the right kind.

use vstd::prelude::*;
use vstd::string::*;
use vstd::utf8::*;

verus! {

/// Whether two texts are the same.
pub fn same_text(a: &str, b: &str) -> (r: bool)
    ensures
        r == (a@ == b@),
{
    let x = a.as_bytes();
    let y = b.as_bytes();
    proof {
        encode_utf8_decode_utf8(a@);
        encode_utf8_decode_utf8(b@);
    }
    if x.len() != y.len() {
        return false;
    }
    let mut i: usize = 0;
    while i < x.len()
        invariant
            i <= x.len(),
            x@.len() == y@.len(),
            x@ == encode_utf8(a@),
            y@ == encode_utf8(b@),
            forall|j: int| 0 <= j < i ==> x@[j] == y@[j],
        decreases x.len() - i,
    {
        if x[i] != y[i] {
            return false;
        }
        i = i + 1;
    }
    assert(x@ =~= y@);
    true
}

/// A node of the configuration tree.
#[derive(Debug)]
pub enum ConfigNode {
    /// Nothing is there.
    Missing,
    /// A text.
    Text(String),
    /// A whole number.
    Integer(i64),
    /// A list of nodes.
    List(Vec<ConfigNode>),
    /// Keys with their values, in the order in which they were written.
    Table(Vec<(ConfigNode, ConfigNode)>),
    /// Anything else: a null, a truth value, a real number.
    Other,
}

/// The kind of value that a field must hold.
#[derive(Debug, Clone, Copy, PartialEq, Eq)]
pub enum FieldKind {
    Text,
    Integer,
    List,
}

/// The fields that a configuration must hold.
#[derive(Debug, Clone, Copy, PartialEq, Eq)]
pub enum RequiredField {
    ServerHost,
    ServerPort,
    WorkerId,
    WorkerPk,
    WorkerSchedule,
    WorkerModules,
}

/// Why a configuration was rejected.
#[derive(Debug, Clone, Copy, PartialEq, Eq)]
pub enum ConfigError {
    /// Nothing stands at the field's path.
    MissingField(RequiredField),
    /// The field holds a value of another kind than it must.
    InvalidType(RequiredField),
}

/// The value under `key` in the entries of a table: that of the first
/// entry whose key is that text, or `Missing`.
pub open spec fn entry_value(entries: Seq<(ConfigNode, ConfigNode)>, key: Seq<char>) -> ConfigNode
    decreases entries.len(),
{
    if entries.len() == 0 {
        ConfigNode::Missing
    } else if entries[0].0 is Text && entries[0].0->Text_0@ == key {
        entries[0].1
    } else {
        entry_value(entries.drop_first(), key)
    }
}

impl ConfigNode {
    /// The node under `key`: `Missing` unless this is a table that holds the
    /// key.
    pub open spec fn child(self, key: Seq<char>) -> ConfigNode {
        match self {
            ConfigNode::Table(entries) => entry_value(entries@, key),
            _ => ConfigNode::Missing,
        }
    }

    /// Whether the node holds a value of the given kind.
    pub open spec fn has_kind(self, kind: FieldKind) -> bool {
        match kind {
            FieldKind::Text => self is Text,
            FieldKind::Integer => self is Integer,
            FieldKind::List => self is List,
        }
    }

    /// The node under `key`, if this is a table that holds the key.
    pub fn get(&self, key: &str) -> (r: Option<&ConfigNode>)
        ensures
            match r {
                Some(node) => *node == self.child(key@),
                None => self.child(key@) is Missing,
            },
    {
        match self {
            ConfigNode::Table(entries) => {
                let mut i: usize = 0;
                assert(entries@.subrange(0, entries@.len() as int) =~= entries@);
                while i < entries.len()
                    invariant
                        i <= entries.len(),
                        self.child(key@) == entry_value(entries@, key@),
                        entry_value(entries@, key@) == entry_value(
                            entries@.subrange(i as int, entries@.len() as int),
                            key@,
                        ),
                    decreases entries.len() - i,
                {
                    let ghost rest = entries@.subrange(i as int, entries@.len() as int);
                    assert(rest[0] == entries@[i as int]);
                    assert(rest.drop_first() =~= entries@.subrange(
                        i as int + 1,
                        entries@.len() as int,
                    ));
                    let found = match &entries[i].0 {
                        ConfigNode::Text(name) => same_text(name.as_str(), key),
                        _ => false,
                    };
                    if found {
                        assert(entry_value(rest, key@) == rest[0].1);
                        return Some(&entries[i].1);
                    }
                    i = i + 1;
                }
                None
            },
            _ => None,
        }
    }

    /// Whether nothing is there.
    pub fn is_missing(&self) -> (r: bool)
        ensures
            r == (self is Missing),
    {
        match self {
            ConfigNode::Missing => true,
            _ => false,
        }
    }

    /// Whether the node holds a value of the given kind.
    pub fn is_kind(&self, kind: FieldKind) -> (r: bool)
        ensures
            r == self.has_kind(kind),
    {
        match kind {
            FieldKind::Text => match self {
                ConfigNode::Text(_) => true,
                _ => false,
            },
            FieldKind::Integer => match self {
                ConfigNode::Integer(_) => true,
                _ => false,
            },
            FieldKind::List => match self {
                ConfigNode::List(_) => true,
                _ => false,
            },
        }
    }
}

impl FieldKind {
    /// The kind's name, as an error message spells it.
    pub open spec fn name_text(self) -> Seq<char> {
        match self {
            FieldKind::Text => "string"@,
            FieldKind::Integer => "integer"@,
            FieldKind::List => "array"@,
        }
    }

    /// The kind's name, as an error message spells it.
    pub fn name(self) -> (r: &'static str)
        ensures
            r@ == self.name_text(),
    {
        match self {
            FieldKind::Text => "string",
            FieldKind::Integer => "integer",
            FieldKind::List => "array",
        }
    }
}

impl RequiredField {
    /// The kind of value that the field must hold.
    pub open spec fn kind(self) -> FieldKind {
        match self {
            RequiredField::ServerPort => FieldKind::Integer,
            RequiredField::WorkerModules => FieldKind::List,
            _ => FieldKind::Text,
        }
    }

    /// The key of the table that holds the field.
    pub open spec fn section_text(self) -> Seq<char> {
        match self {
            RequiredField::ServerHost | RequiredField::ServerPort => "server"@,
            _ => "worker"@,
        }
    }

    /// The field's key within its table.
    pub open spec fn key_text(self) -> Seq<char> {
        match self {
            RequiredField::ServerHost => "host"@,
            RequiredField::ServerPort => "port"@,
            RequiredField::WorkerId => "id"@,
            RequiredField::WorkerPk => "pk"@,
            RequiredField::WorkerSchedule => "schedule"@,
            RequiredField::WorkerModules => "modules"@,
        }
    }

    /// The field's dotted path: the table's key, a dot, the field's key.
    pub open spec fn path_text(self) -> Seq<char> {
        self.section_text() + seq!['.'] + self.key_text()
    }

    /// The node that stands at the field's path under `root`.
    pub open spec fn node_in(self, root: ConfigNode) -> ConfigNode {
        root.child(self.section_text()).child(self.key_text())
    }

    /// What is wrong with the field under `root`, if anything: it is
    /// missing, or it holds a value of another kind.
    pub open spec fn failure_in(self, root: ConfigNode) -> Option<ConfigError> {
        if self.node_in(root) is Missing {
            Some(ConfigError::MissingField(self))
        } else if !self.node_in(root).has_kind(self.kind()) {
            Some(ConfigError::InvalidType(self))
        } else {
            None
        }
    }

    /// The kind of value that the field must hold.
    pub fn expected(self) -> (r: FieldKind)
        ensures
            r == self.kind(),
    {
        match self {
            RequiredField::ServerPort => FieldKind::Integer,
            RequiredField::WorkerModules => FieldKind::List,
            _ => FieldKind::Text,
        }
    }

    /// The key of the table that holds the field.
    pub fn section(self) -> (r: &'static str)
        ensures
            r@ == self.section_text(),
    {
        match self {
            RequiredField::ServerHost | RequiredField::ServerPort => "server",
            _ => "worker",
        }
    }

    /// The field's key within its table.
    pub fn key(self) -> (r: &'static str)
        ensures
            r@ == self.key_text(),
    {
        match self {
            RequiredField::ServerHost => "host",
            RequiredField::ServerPort => "port",
            RequiredField::WorkerId => "id",
            RequiredField::WorkerPk => "pk",
            RequiredField::WorkerSchedule => "schedule",
            RequiredField::WorkerModules => "modules",
        }
    }

    /// The field's dotted path.
    pub fn path(self) -> (r: String)
        ensures
            r@ == self.path_text(),
    {
        proof {
            reveal_strlit(".");
        }
        let mut r = String::from_str(self.section());
        r.append(".");
        r.append(self.key());
        assert(r@ =~= self.path_text());
        r
    }

    /// The node that stands at the field's path under `root`, if any does.
    pub fn find<'a>(self, root: &'a ConfigNode) -> (r: Option<&'a ConfigNode>)
        ensures
            match r {
                Some(node) => *node == self.node_in(*root) && !(node is Missing),
                None => self.node_in(*root) is Missing,
            },
    {
        match root.get(self.section()) {
            Some(section) => match section.get(self.key()) {
                Some(node) => if node.is_missing() {
                    None
                } else {
                    Some(node)
                },
                None => None,
            },
            None => None,
        }
    }

    /// What is wrong with the field under `root`, if anything.
    pub fn check(self, root: &ConfigNode) -> (r: Option<ConfigError>)
        ensures
            r == self.failure_in(*root),
    {
        match self.find(root) {
            None => Some(ConfigError::MissingField(self)),
            Some(node) => if node.is_kind(self.expected()) {
                None
            } else {
                Some(ConfigError::InvalidType(self))
            },
        }
    }
}

impl ConfigError {
    /// The message that names the field and, for a value of the wrong kind,
    /// the kind that was expected.
    pub open spec fn message_text(self) -> Seq<char> {
        match self {
            ConfigError::MissingField(field) => "Missing required configuration field: "@
                + field.path_text(),
            ConfigError::InvalidType(field) => "Invalid type for "@ + field.path_text()
                + ": expected "@ + field.kind().name_text(),
        }
    }

    /// The field that the configuration was rejected for.
    pub fn field(&self) -> (r: RequiredField)
        ensures
            self == ConfigError::MissingField(r) || self == ConfigError::InvalidType(r),
    {
        match self {
            ConfigError::MissingField(field) => *field,
            ConfigError::InvalidType(field) => *field,
        }
    }

    /// The message that names the field and, for a value of the wrong kind,
    /// the kind that was expected.
    pub fn message(&self) -> (r: String)
        ensures
            r@ == self.message_text(),
    {
        match self {
            ConfigError::MissingField(field) => {
                let mut r = String::from_str("Missing required configuration field: ");
                r.append(field.path().as_str());
                r
            },
            ConfigError::InvalidType(field) => {
                let mut r = String::from_str("Invalid type for ");
                r.append(field.path().as_str());
                r.append(": expected ");
                r.append(field.expected().name());
                r
            },
        }
    }
}

/// The required fields, in the order in which they are checked.
pub open spec fn required_fields() -> Seq<RequiredField> {
    seq![
        RequiredField::ServerHost,
        RequiredField::ServerPort,
        RequiredField::WorkerId,
        RequiredField::WorkerPk,
        RequiredField::WorkerSchedule,
        RequiredField::WorkerModules,
    ]
}

/// The failure of the first required field from position `from` on that
/// has one.
pub open spec fn first_failure(root: ConfigNode, from: int) -> Option<ConfigError>
    decreases 6 - from,
{
    if from < 0 || from >= 6 {
        None
    } else if required_fields()[from].failure_in(root) is Some {
        required_fields()[from].failure_in(root)
    } else {
        first_failure(root, from + 1)
    }
}

/// What the validation of `root` gives: the failure of the first required
/// field that has one, or success.
pub open spec fn validated(root: ConfigNode) -> Result<(), ConfigError> {
    match first_failure(root, 0) {
        Some(error) => Err(error),
        None => Ok(()),
    }
}

/// A configuration is accepted exactly when no required field fails.
pub proof fn lemma_accepted_iff_all_pass(root: ConfigNode)
    ensures
        validated(root) is Ok <==> forall|i: int|
            0 <= i < 6 ==> (#[trigger] required_fields()[i]).failure_in(root) is None,
{
    lemma_first_failure(root, 0);
}

proof fn lemma_first_failure(root: ConfigNode, from: int)
    requires
        0 <= from <= 6,
    ensures
        first_failure(root, from) is None <==> forall|i: int|
            from <= i < 6 ==> (#[trigger] required_fields()[i]).failure_in(root) is None,
    decreases 6 - from,
{
    if from < 6 {
        lemma_first_failure(root, from + 1);
    }
}

/// The required field at a position of the checking order.
fn required_field(i: usize) -> (r: RequiredField)
    requires
        i < 6,
    ensures
        r == required_fields()[i as int],
{
    if i == 0 {
        RequiredField::ServerHost
    } else if i == 1 {
        RequiredField::ServerPort
    } else if i == 2 {
        RequiredField::WorkerId
    } else if i == 3 {
        RequiredField::WorkerPk
    } else if i == 4 {
        RequiredField::WorkerSchedule
    } else {
        RequiredField::WorkerModules
    }
}

/// Checks that each required field is present along its path and holds a
/// value of its kind. The first field that fails is reported.
pub fn validate_config(config: &ConfigNode) -> (r: Result<(), ConfigError>)
    ensures
        r == validated(*config),
{
    let mut i: usize = 0;
    while i < 6
        invariant
            i <= 6,
            first_failure(*config, 0) == first_failure(*config, i as int),
        decreases 6 - i,
    {
        match required_field(i).check(config) {
            Some(error) => {
                return Err(error);
            },
            None => {},
        }
        i = i + 1;
    }
    Ok(())
}

} // verus!
