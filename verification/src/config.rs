//! The worker's configuration as a validated value, read once from the
//! configuration tree.

use crate::validator::{
    lemma_accepted_iff_all_pass, required_fields, validate_config, validated, ConfigError,
    ConfigNode, RequiredField,
};
use vstd::pervasive::unreached;
use vstd::prelude::*;
use vstd::string::*;

verus! {

/// A module: a name and the shell command whose output it contributes.
#[derive(Debug)]
pub struct ModuleSpec {
    pub name: String,
    pub command: String,
}

/// What the worker is configured to do.
#[derive(Debug)]
pub struct WorkerConfig {
    pub worker_id: String,
    pub pre_shared_key: String,
    pub cron_expression: String,
    pub server_host: String,
    pub server_port: u16,
    pub modules: Vec<ModuleSpec>,
}

/// The port that a configured number stands for: the number modulo 65536.
pub open spec fn port_of(number: i64) -> u16 {
    (number as int % 65536) as u16
}

/// The module that an item of the module list declares: its first entry, if
/// that is a text under a text. Any other item declares none.
pub open spec fn module_of(item: ConfigNode) -> Option<(Seq<char>, Seq<char>)> {
    match item {
        ConfigNode::Table(entries) => if entries@.len() > 0 && entries@[0].0 is Text
            && entries@[0].1 is Text {
            Some((entries@[0].0->Text_0@, entries@[0].1->Text_0@))
        } else {
            None
        },
        _ => None,
    }
}

/// The modules that a list declares, in the order of the list.
pub open spec fn modules_of(items: Seq<ConfigNode>) -> Seq<(Seq<char>, Seq<char>)>
    decreases items.len(),
{
    if items.len() == 0 {
        Seq::empty()
    } else {
        match module_of(items.last()) {
            Some(module) => modules_of(items.drop_last()).push(module),
            None => modules_of(items.drop_last()),
        }
    }
}

/// The names and commands of a list of modules, in order.
pub open spec fn views_of(modules: Seq<ModuleSpec>) -> Seq<(Seq<char>, Seq<char>)> {
    Seq::new(modules.len(), |i: int| modules[i].view())
}

impl ModuleSpec {
    /// The module's name and command.
    pub open spec fn view(&self) -> (Seq<char>, Seq<char>) {
        (self.name@, self.command@)
    }
}

impl WorkerConfig {
    /// The modules' names and commands, in order.
    pub open spec fn module_views(&self) -> Seq<(Seq<char>, Seq<char>)> {
        views_of(self.modules@)
    }

    /// Whether this is the configuration that the tree under `root` holds.
    pub open spec fn is_read_from(&self, root: ConfigNode) -> bool {
        &&& RequiredField::ServerHost.node_in(root) == ConfigNode::Text(self.server_host)
        &&& RequiredField::ServerPort.node_in(root) is Integer
        &&& self.server_port == port_of(RequiredField::ServerPort.node_in(root)->Integer_0)
        &&& RequiredField::WorkerId.node_in(root) == ConfigNode::Text(self.worker_id)
        &&& RequiredField::WorkerPk.node_in(root) == ConfigNode::Text(self.pre_shared_key)
        &&& RequiredField::WorkerSchedule.node_in(root) == ConfigNode::Text(self.cron_expression)
        &&& RequiredField::WorkerModules.node_in(root) is List
        &&& self.module_views() == modules_of(RequiredField::WorkerModules.node_in(root)->List_0@)
    }
}

/// The port that a configured number stands for.
pub fn port_from(number: i64) -> (port: u16)
    ensures
        port == port_of(number),
{
    if number >= 0 {
        (number % 65536) as u16
    } else {
        let below: i64 = -(number + 1);
        (65535 - below % 65536) as u16
    }
}

/// The module that an item of the module list declares, if it declares one.
pub fn module_from(item: &ConfigNode) -> (r: Option<ModuleSpec>)
    ensures
        match r {
            Some(module) => module_of(*item) == Some(module.view()),
            None => module_of(*item) is None,
        },
{
    match item {
        ConfigNode::Table(entries) => {
            if entries.len() == 0 {
                return None;
            }
            match (&entries[0].0, &entries[0].1) {
                (ConfigNode::Text(name), ConfigNode::Text(command)) => Some(
                    ModuleSpec { name: name.clone(), command: command.clone() },
                ),
                _ => None,
            }
        },
        _ => None,
    }
}

/// The modules that a list declares, in the order of the list.
pub fn modules_from(items: &Vec<ConfigNode>) -> (r: Vec<ModuleSpec>)
    ensures
        views_of(r@) == modules_of(items@),
{
    let mut modules: Vec<ModuleSpec> = Vec::new();
    let mut i: usize = 0;
    assert(views_of(modules@) =~= modules_of(items@.subrange(0, 0)));
    while i < items.len()
        invariant
            i <= items.len(),
            views_of(modules@) == modules_of(items@.subrange(0, i as int)),
        decreases items.len() - i,
    {
        let ghost before = items@.subrange(0, i as int);
        let ghost upto = items@.subrange(0, i as int + 1);
        assert(upto.drop_last() =~= before);
        assert(upto.last() == items@[i as int]);
        let ghost old_views = views_of(modules@);
        match module_from(&items[i]) {
            Some(module) => {
                modules.push(module);
                assert(views_of(modules@) =~= old_views.push(module.view()));
            },
            None => {},
        }
        i = i + 1;
    }
    assert(items@.subrange(0, items@.len() as int) =~= items@);
    modules
}

/// The text that stands at a field's path.
fn text_at(root: &ConfigNode, field: RequiredField) -> (r: String)
    requires
        field.node_in(*root) is Text,
    ensures
        field.node_in(*root) == ConfigNode::Text(r),
{
    match field.find(root) {
        Some(ConfigNode::Text(text)) => text.clone(),
        _ => unreached(),
    }
}

impl WorkerConfig {
    /// Validates the tree and reads the configuration from it. A tree that
    /// the validation rejects gives that error and nothing else fails.
    pub fn from_tree(root: &ConfigNode) -> (r: Result<WorkerConfig, ConfigError>)
        ensures
            match r {
                Ok(config) => validated(*root) is Ok && config.is_read_from(*root),
                Err(error) => validated(*root) == Err::<(), ConfigError>(error),
            },
    {
        match validate_config(root) {
            Err(error) => {
                return Err(error);
            },
            Ok(_) => {},
        }
        proof {
            lemma_accepted_iff_all_pass(*root);
            assert(required_fields()[0] == RequiredField::ServerHost);
            assert(required_fields()[1] == RequiredField::ServerPort);
            assert(required_fields()[2] == RequiredField::WorkerId);
            assert(required_fields()[3] == RequiredField::WorkerPk);
            assert(required_fields()[4] == RequiredField::WorkerSchedule);
            assert(required_fields()[5] == RequiredField::WorkerModules);
        }
        let server_port = match RequiredField::ServerPort.find(root) {
            Some(ConfigNode::Integer(number)) => port_from(*number),
            _ => unreached(),
        };
        let modules = match RequiredField::WorkerModules.find(root) {
            Some(ConfigNode::List(items)) => modules_from(items),
            _ => unreached(),
        };
        Ok(
            WorkerConfig {
                worker_id: text_at(root, RequiredField::WorkerId),
                pre_shared_key: text_at(root, RequiredField::WorkerPk),
                cron_expression: text_at(root, RequiredField::WorkerSchedule),
                server_host: text_at(root, RequiredField::ServerHost),
                server_port,
                modules,
            },
        )
    }
}

} // verus!
