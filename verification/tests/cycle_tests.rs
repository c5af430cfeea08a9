use dmon_worker::config::{ModuleSpec, WorkerConfig};
use dmon_worker::cycle::{
    endpoint, module_notice, no_modules_warning, request_body, response_notice, Cycle,
    CycleError, CycleStep, Delivery,
};
use dmon_worker::hashenc::{decrypt_payload, CryptoError, EncryptedPayload};

const IV: [u8; 16] = [9; 16];

fn config(modules: &[(&str, &str)]) -> WorkerConfig {
    WorkerConfig {
        worker_id: "w1".to_string(),
        pre_shared_key: "secret".to_string(),
        cron_expression: "0 * * * *".to_string(),
        server_host: " collector.example ".to_string(),
        server_port: 8080,
        modules: modules
            .iter()
            .map(|(n, c)| ModuleSpec { name: n.to_string(), command: c.to_string() })
            .collect(),
    }
}

fn expect_module<'a>(step: CycleStep<'a>, name: &str, command: &str) -> Cycle<'a> {
    match step {
        CycleStep::RunModule(cycle) => {
            assert_eq!(cycle.pending().name, name);
            assert_eq!(cycle.pending().command, command);
            cycle
        }
        _ => panic!("the cycle does not wait for a module"),
    }
}

fn expect_delivery(step: CycleStep<'_>) -> Delivery {
    match step {
        CycleStep::Deliver(delivery) => delivery,
        _ => panic!("the cycle does not deliver"),
    }
}

fn document_of(delivery: &Delivery) -> String {
    let body = delivery.body.as_str();
    let rest = body.strip_prefix("{\"payload\":\"").unwrap();
    let (hex, rest) = rest.split_once("\",\"iv\":\"").unwrap();
    let iv = rest.strip_suffix("\"}").unwrap();
    assert_eq!(iv, "CQkJCQkJCQkJCQkJCQkJCQ==");
    decrypt_payload(hex, "secret", IV).unwrap()
}

#[test]
fn a_cycle_runs_each_module_and_delivers_the_document() {
    let config = config(&[("cpu", "echo '{\"usage\":42}'"), ("mem", "echo '{\"free\":10}'")]);
    let cycle = expect_module(Cycle::begin(&config, IV), "cpu", "echo '{\"usage\":42}'");
    let step = cycle.module_finished(0, "{\"usage\":42}\n");
    let cycle = expect_module(step, "mem", "echo '{\"free\":10}'");
    let delivery = expect_delivery(cycle.module_finished(0, "{\"free\":10}\n"));
    assert_eq!(delivery.url, "http://collector.example:8080/api/workers/w1/push");
    assert_eq!(document_of(&delivery), "{\"cpu\":{\"usage\":42},\"mem\":{\"free\":10}}");
}

#[test]
fn a_cycle_without_modules_delivers_an_empty_document() {
    let config = config(&[]);
    let delivery = expect_delivery(Cycle::begin(&config, IV));
    assert_eq!(document_of(&delivery), "{}");
}

#[test]
fn output_that_is_no_json_fails_the_cycle_before_any_delivery() {
    let config = config(&[("cpu", "echo not-json"), ("mem", "echo 1")]);
    let cycle = expect_module(Cycle::begin(&config, IV), "cpu", "echo not-json");
    match cycle.module_finished(0, "not-json") {
        CycleStep::Failed(CycleError::ModuleExecution(failure)) => {
            assert_eq!(failure.module, "cpu");
            assert_eq!(failure.output, "not-json");
        }
        _ => panic!("the cycle did not fail on the module"),
    }
}

#[test]
fn a_failed_exit_of_the_last_module_fails_the_cycle() {
    let config = config(&[("cpu", "echo 1"), ("mem", "false")]);
    let cycle = expect_module(Cycle::begin(&config, IV), "cpu", "echo 1");
    let cycle = expect_module(cycle.module_finished(0, "1"), "mem", "false");
    let step = cycle.module_finished(1, "");
    assert!(matches!(step, CycleStep::Failed(CycleError::ModuleExecution(_))));
}

#[test]
fn the_body_holds_the_payload_and_then_the_iv() {
    let payload =
        EncryptedPayload { ciphertext_hex: "00ff".to_string(), iv_base64: "AA==".to_string() };
    assert_eq!(request_body(&payload), "{\"payload\":\"00ff\",\"iv\":\"AA==\"}");
}

#[test]
fn sealing_puts_the_iv_in_base64_beside_the_ciphertext() {
    let payload = EncryptedPayload::seal("{}", "secret", IV).unwrap();
    assert_eq!(payload.iv_base64, "CQkJCQkJCQkJCQkJCQkJCQ==");
    assert_eq!(decrypt_payload(&payload.ciphertext_hex, "secret", IV).unwrap(), "{}");
}

#[test]
fn the_endpoint_is_the_push_route_of_the_worker() {
    let url = endpoint(&config(&[]));
    assert_eq!(url.host, "collector.example");
    assert_eq!(url.port, Some(8080));
    assert_eq!(url.route, "/api/workers/w1/push");
}

#[test]
fn the_outcome_of_a_delivery_is_the_answer_or_the_failure() {
    assert_eq!(Delivery::outcome(Ok("stored".to_string())).unwrap(), "stored");
    match Delivery::outcome(Err("connection refused".to_string())) {
        Err(CycleError::Delivery(detail)) => assert_eq!(detail, "connection refused"),
        _ => panic!("the failure was not kept"),
    }
}

#[test]
fn each_failure_has_its_message() {
    let module = match Cycle::begin(&config(&[("cpu", "x")]), IV) {
        CycleStep::RunModule(cycle) => match cycle.module_finished(0, "oops") {
            CycleStep::Failed(error) => error,
            _ => panic!("the cycle did not fail"),
        },
        _ => panic!("the cycle does not wait for a module"),
    };
    assert_eq!(module.message(), "module cpu gave no JSON value: oops");
    assert_eq!(
        CycleError::Delivery("timed out".to_string()).message(),
        "delivery failed: timed out"
    );
    assert_eq!(CycleError::Crypto(CryptoError::MalformedHex).message(), "Failed to decode hex string");
    assert_eq!(CryptoError::InvalidPadding.message(), "Decryption failed");
    assert_eq!(CryptoError::InvalidText.message(), "Failed to convert decrypted data to string");
    assert_eq!(CryptoError::EncryptionFailed.message(), "Encryption failed");
}

#[test]
fn log_lines_start_with_the_worker_in_brackets() {
    let module = ModuleSpec { name: "cpu".to_string(), command: "echo 1".to_string() };
    assert_eq!(module_notice("w1", &module), "[w1] module running: cpu | echo 1");
    assert_eq!(no_modules_warning("w1"), "[w1] no modules found in configuration!");
    assert_eq!(response_notice("w1", "stored"), "[w1] response: stored");
}
