use dmon_worker::modules::{aggregate, Document, ModuleOutput};

fn output(name: &str, exit_code: i32, stdout: &str) -> ModuleOutput {
    ModuleOutput { name: name.to_string(), exit_code, stdout: stdout.to_string() }
}

#[test]
fn modules_are_gathered_in_their_order() {
    let outputs = vec![output("cpu", 0, "{\"usage\":42}\n"), output("mem", 0, "{\"free\":10}\n")];
    assert_eq!(aggregate(&outputs).unwrap(), "{\"cpu\":{\"usage\":42},\"mem\":{\"free\":10}}");
}

#[test]
fn insertion_order_is_kept_against_the_order_of_the_keys() {
    let outputs = vec![output("mem", 0, "1"), output("cpu", 0, "[true, null]")];
    assert_eq!(aggregate(&outputs).unwrap(), "{\"mem\":1,\"cpu\":[true,null]}");
}

#[test]
fn no_modules_give_an_empty_document() {
    assert_eq!(aggregate(&vec![]).unwrap(), "{}");
    assert_eq!(Document::new().into_text(), "{}");
}

#[test]
fn a_repeated_name_keeps_its_place_and_takes_the_later_value() {
    let outputs = vec![output("a", 0, "1"), output("b", 0, "2"), output("a", 0, "3")];
    assert_eq!(aggregate(&outputs).unwrap(), "{\"a\":3,\"b\":2}");
}

#[test]
fn output_that_is_no_json_fails_the_whole() {
    let outputs = vec![output("cpu", 0, "{\"usage\":42}"), output("mem", 0, "not-json")];
    let failure = aggregate(&outputs).unwrap_err();
    assert_eq!(failure.module, "mem");
    assert_eq!(failure.output, "not-json");
}

#[test]
fn a_failed_exit_fails_the_whole_even_with_json_output() {
    let outputs = vec![output("cpu", 3, "{\"usage\":42}"), output("mem", 0, "not-json")];
    let failure = aggregate(&outputs).unwrap_err();
    assert_eq!(failure.module, "cpu");
    assert_eq!(failure.output, "{\"usage\":42}");
}

#[test]
fn a_rejected_run_leaves_the_document_as_it_was() {
    let mut document = Document::new();
    assert!(document.add("a", 0, " {\"x\": [1, 2]} ").is_ok());
    assert!(document.add("b", 0, "").is_err());
    assert!(document.add("c", 1, "1").is_err());
    assert!(document.add("d", 0, "1 2").is_err());
    assert_eq!(document.into_text(), "{\"a\":{\"x\":[1,2]}}");
}

#[test]
fn names_are_written_as_json_strings() {
    let outputs = vec![output("a \"quoted\"\nname", 0, "\"v\"")];
    assert_eq!(aggregate(&outputs).unwrap(), "{\"a \\\"quoted\\\"\\nname\":\"v\"}");
}
