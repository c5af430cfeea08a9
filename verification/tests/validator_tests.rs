use dmon_worker::config::{module_from, modules_from, port_from, WorkerConfig};
use dmon_worker::validator::{
    same_text, validate_config, ConfigError, ConfigNode, FieldKind, RequiredField,
};

fn text(s: &str) -> ConfigNode {
    ConfigNode::Text(s.to_string())
}

fn table(entries: Vec<(&str, ConfigNode)>) -> ConfigNode {
    ConfigNode::Table(entries.into_iter().map(|(k, v)| (text(k), v)).collect())
}

fn module(name: &str, command: &str) -> ConfigNode {
    table(vec![(name, text(command))])
}

fn minimal(worker: Vec<(&str, ConfigNode)>) -> ConfigNode {
    table(vec![
        ("server", table(vec![("host", text("localhost")), ("port", ConfigNode::Integer(8080))])),
        ("worker", table(worker)),
    ])
}

fn full_worker() -> Vec<(&'static str, ConfigNode)> {
    vec![
        ("id", text("w1")),
        ("pk", text("secret")),
        ("schedule", text("0 * * * *")),
        ("modules", ConfigNode::List(vec![])),
    ]
}

#[test]
fn minimal_config_with_all_six_fields_passes() {
    assert_eq!(validate_config(&minimal(full_worker())), Ok(()));
}

#[test]
fn config_without_worker_pk_is_rejected_by_name() {
    let worker = full_worker().into_iter().filter(|(k, _)| *k != "pk").collect();
    let error = validate_config(&minimal(worker)).unwrap_err();
    assert_eq!(error, ConfigError::MissingField(RequiredField::WorkerPk));
    assert_eq!(error.message(), "Missing required configuration field: worker.pk");
    assert_eq!(error.field().path(), "worker.pk");
}

#[test]
fn first_failing_field_is_the_one_reported() {
    let root = table(vec![("worker", table(vec![("id", ConfigNode::Integer(3))]))]);
    assert_eq!(
        validate_config(&root),
        Err(ConfigError::MissingField(RequiredField::ServerHost))
    );
    let root = table(vec![
        ("server", table(vec![("host", text("h")), ("port", text("80"))])),
        ("worker", table(vec![])),
    ]);
    let error = validate_config(&root).unwrap_err();
    assert_eq!(error, ConfigError::InvalidType(RequiredField::ServerPort));
    assert_eq!(error.message(), "Invalid type for server.port: expected integer");
}

#[test]
fn each_field_is_checked_for_presence_and_kind() {
    let fields = [
        (RequiredField::ServerHost, "server.host", "string"),
        (RequiredField::ServerPort, "server.port", "integer"),
        (RequiredField::WorkerId, "worker.id", "string"),
        (RequiredField::WorkerPk, "worker.pk", "string"),
        (RequiredField::WorkerSchedule, "worker.schedule", "string"),
        (RequiredField::WorkerModules, "worker.modules", "array"),
    ];
    for (field, path, kind) in fields {
        assert_eq!(field.path(), path);
        assert_eq!(field.expected().name(), kind);
        let build = |node: Option<ConfigNode>| {
            let mut server = vec![("host", text("h")), ("port", ConfigNode::Integer(1))];
            let mut worker = full_worker();
            let list = if field.section() == "server" { &mut server } else { &mut worker };
            list.retain(|(k, _)| *k != field.key());
            if let Some(node) = node {
                list.push((field.key(), node));
            }
            table(vec![("server", table(server)), ("worker", table(worker))])
        };
        assert_eq!(validate_config(&build(None)), Err(ConfigError::MissingField(field)));
        assert_eq!(
            validate_config(&build(Some(ConfigNode::Missing))),
            Err(ConfigError::MissingField(field))
        );
        assert_eq!(
            validate_config(&build(Some(ConfigNode::Other))),
            Err(ConfigError::InvalidType(field))
        );
        let message = format!("Invalid type for {}: expected {}", path, kind);
        assert_eq!(ConfigError::InvalidType(field).message(), message);
    }
}

#[test]
fn a_section_that_is_no_table_counts_as_missing() {
    let root = table(vec![("server", text("localhost")), ("worker", table(full_worker()))]);
    assert_eq!(
        validate_config(&root),
        Err(ConfigError::MissingField(RequiredField::ServerHost))
    );
    assert_eq!(
        validate_config(&ConfigNode::Other),
        Err(ConfigError::MissingField(RequiredField::ServerHost))
    );
}

#[test]
fn get_takes_the_first_entry_with_a_text_key() {
    let root = ConfigNode::Table(vec![
        (ConfigNode::Integer(1), text("number key")),
        (text("a"), text("first")),
        (text("a"), text("second")),
    ]);
    assert!(matches!(root.get("a"), Some(ConfigNode::Text(s)) if s == "first"));
    assert!(root.get("b").is_none());
    assert!(root.get("1").is_none());
    assert!(text("a").get("a").is_none());
    assert!(ConfigNode::Integer(1).is_kind(FieldKind::Integer));
    assert!(!ConfigNode::Integer(1).is_kind(FieldKind::Text));
    assert!(ConfigNode::Missing.is_missing());
}

#[test]
fn same_text_compares_whole_texts() {
    assert!(same_text("", ""));
    assert!(same_text("host", "host"));
    assert!(!same_text("host", "hos"));
    assert!(!same_text("host", "hosT"));
    assert!(same_text("\u{e9}t\u{e9}", "\u{e9}t\u{e9}"));
}

#[test]
fn from_tree_reads_every_field() {
    let mut worker = full_worker();
    worker.retain(|(k, _)| *k != "modules");
    worker.push((
        "modules",
        ConfigNode::List(vec![
            module("cpu", "echo '{\"usage\":42}'"),
            text("not a module"),
            ConfigNode::Table(vec![]),
            ConfigNode::Table(vec![(ConfigNode::Integer(1), text("x"))]),
            module("mem", "echo '{\"free\":10}'"),
        ]),
    ));
    let config = WorkerConfig::from_tree(&minimal(worker)).unwrap();
    assert_eq!(config.worker_id, "w1");
    assert_eq!(config.pre_shared_key, "secret");
    assert_eq!(config.cron_expression, "0 * * * *");
    assert_eq!(config.server_host, "localhost");
    assert_eq!(config.server_port, 8080);
    let modules: Vec<(&str, &str)> =
        config.modules.iter().map(|m| (m.name.as_str(), m.command.as_str())).collect();
    assert_eq!(
        modules,
        vec![("cpu", "echo '{\"usage\":42}'"), ("mem", "echo '{\"free\":10}'")]
    );
}

#[test]
fn from_tree_gives_the_error_of_the_validation() {
    let worker = full_worker().into_iter().filter(|(k, _)| *k != "schedule").collect();
    assert_eq!(
        WorkerConfig::from_tree(&minimal(worker)).unwrap_err(),
        ConfigError::MissingField(RequiredField::WorkerSchedule)
    );
}

#[test]
fn port_is_taken_modulo_65536() {
    assert_eq!(port_from(0), 0);
    assert_eq!(port_from(8080), 8080);
    assert_eq!(port_from(65535), 65535);
    assert_eq!(port_from(65536), 0);
    assert_eq!(port_from(70000), 4464);
    assert_eq!(port_from(-1), 65535);
    assert_eq!(port_from(-65536), 0);
    assert_eq!(port_from(i64::MIN), 0);
    assert_eq!(port_from(i64::MAX), 65535);
}

#[test]
fn a_module_is_the_first_entry_of_a_table() {
    let item = ConfigNode::Table(vec![(text("a"), text("x")), (text("b"), text("y"))]);
    let found = module_from(&item).unwrap();
    assert_eq!((found.name.as_str(), found.command.as_str()), ("a", "x"));
    assert!(module_from(&table(vec![("a", ConfigNode::Integer(1))])).is_none());
    assert!(module_from(&ConfigNode::List(vec![])).is_none());
    assert!(modules_from(&vec![]).is_empty());
}
