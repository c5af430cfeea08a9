//! One push cycle: run the modules in turn, gather what they print,
//! encrypt the document and hand it over for delivery.
//!
//! The cycle itself runs no command and sends nothing. It says what is to
//! be done next, and is told what came of it.

use crate::config::{ModuleSpec, WorkerConfig};
use crate::encoding::base64_text;
use crate::hashenc::{encrypted, fits, CryptoError, EncryptedPayload};
use crate::modules::{module_value, object_text, upsert, Document, ModuleFailure};
use crate::url::{
    decimal, lemma_trimmed_is_subrange, trimmed, with_leading_slash, Url,
};
use vstd::prelude::*;
use vstd::string::*;

verus! {

/// Why a cycle failed.
#[derive(Debug)]
pub enum CycleError {
    /// A module exited with failure or printed anything but one JSON value.
    ModuleExecution(ModuleFailure),
    /// The document could not be encrypted.
    Crypto(CryptoError),
    /// The collector could not be reached, or it refused the push.
    Delivery(String),
}

/// What a `CycleError` holds, as plain values.
pub enum CycleErrorView {
    ModuleExecution { module: Seq<char>, output: Seq<char> },
    Crypto(CryptoError),
    Delivery(Seq<char>),
}

impl View for CycleError {
    type V = CycleErrorView;

    open spec fn view(&self) -> CycleErrorView {
        match self {
            CycleError::ModuleExecution(failure) => CycleErrorView::ModuleExecution {
                module: failure.module@,
                output: failure.output@,
            },
            CycleError::Crypto(error) => CycleErrorView::Crypto(*error),
            CycleError::Delivery(detail) => CycleErrorView::Delivery(detail@),
        }
    }
}

impl CycleErrorView {
    /// The message of each failure.
    pub open spec fn message_text(self) -> Seq<char> {
        match self {
            CycleErrorView::ModuleExecution { module, output } => "module "@ + module
                + " gave no JSON value: "@ + output,
            CycleErrorView::Crypto(error) => error.message_text(),
            CycleErrorView::Delivery(detail) => "delivery failed: "@ + detail,
        }
    }
}

impl CycleError {
    /// The message of the failure.
    pub fn message(&self) -> (r: String)
        ensures
            r@ == self@.message_text(),
    {
        match self {
            CycleError::ModuleExecution(failure) => {
                let mut r = String::from_str("module ");
                r.append(failure.module.as_str());
                r.append(" gave no JSON value: ");
                r.append(failure.output.as_str());
                r
            },
            CycleError::Crypto(error) => error.message(),
            CycleError::Delivery(detail) => {
                let mut r = String::from_str("delivery failed: ");
                r.append(detail.as_str());
                r
            },
        }
    }
}

/// The route that a worker pushes to.
pub open spec fn push_route(worker_id: Seq<char>) -> Seq<char> {
    "/api/workers/"@ + worker_id + "/push"@
}

/// The address that a worker pushes to: plain HTTP, the host without
/// whitespace around it, the port, and the worker's route.
pub open spec fn endpoint_text(config: WorkerConfig) -> Seq<char> {
    "http://"@ + trimmed(config.server_host@) + seq![':'] + decimal(config.server_port as nat)
        + push_route(config.worker_id@)
}

/// The body of a push: a JSON object that holds the ciphertext under
/// `payload` and the IV under `iv`.
pub open spec fn body_text(ciphertext_hex: Seq<char>, iv_base64: Seq<char>) -> Seq<char> {
    "{\"payload\":\""@ + ciphertext_hex + "\",\"iv\":\""@ + iv_base64 + "\"}"@
}

/// The body that carries the document with the given entries, encrypted
/// under `secret` and `iv`.
pub open spec fn sealed_body(
    entries: Seq<(Seq<char>, Seq<char>)>,
    secret: Seq<char>,
    iv: Seq<u8>,
) -> Seq<char> {
    body_text(encrypted(object_text(entries), secret, iv), base64_text(iv))
}

/// The route of a worker is kept as it is when an endpoint is made of it.
pub proof fn lemma_push_route_is_kept(worker_id: Seq<char>)
    ensures
        with_leading_slash(trimmed(push_route(worker_id))) == push_route(worker_id),
{
    reveal_strlit("/api/workers/");
    reveal_strlit("/push");
    let route = push_route(worker_id);
    assert(route.len() == 13 + worker_id.len() + 5);
    assert(route[0] == '/');
    assert(route[route.len() - 1] == 'h');
    lemma_trimmed_is_subrange(route, 0, route.len() as int);
    assert(route.subrange(0, route.len() as int) =~= route);
}

/// The endpoint that a worker pushes to.
pub fn endpoint(config: &WorkerConfig) -> (url: Url)
    ensures
        url.address(false) == endpoint_text(*config),
{
    let mut route = String::from_str("/api/workers/");
    route.append(config.worker_id.as_str());
    route.append("/push");
    proof {
        lemma_push_route_is_kept(config.worker_id@);
        reveal_strlit("http://");
    }
    let url = Url::new(config.server_host.as_str(), Some(config.server_port), route.as_str());
    assert(url.address(false) =~= endpoint_text(*config));
    url
}

/// The body of a push for an encrypted payload.
pub fn request_body(payload: &EncryptedPayload) -> (body: String)
    ensures
        body@ == body_text(payload.ciphertext_hex@, payload.iv_base64@),
{
    let mut body = String::from_str("{\"payload\":\"");
    body.append(payload.ciphertext_hex.as_str());
    body.append("\",\"iv\":\"");
    body.append(payload.iv_base64.as_str());
    body.append("\"}");
    body
}

/// A push that is ready to be sent: `POST` the body to the address.
#[derive(Debug)]
pub struct Delivery {
    pub url: String,
    pub body: String,
}

/// A cycle that waits for the output of a module.
pub struct Cycle<'a> {
    config: &'a WorkerConfig,
    iv: [u8; 16],
    document: Document,
    position: usize,
}

/// What is to be done next in a cycle.
pub enum CycleStep<'a> {
    /// Run the module that the cycle waits for, and report its output.
    RunModule(Cycle<'a>),
    /// All modules have run: send the push.
    Deliver(Delivery),
    /// The cycle has failed, and nothing is to be sent.
    Failed(CycleError),
}

impl<'a> Cycle<'a> {
    #[verifier::type_invariant]
    spec fn well_formed(self) -> bool {
        self.position < self.config.modules@.len()
    }

    /// The configuration that the cycle runs under.
    pub closed spec fn config(self) -> WorkerConfig {
        *self.config
    }

    /// The IV of this cycle.
    pub closed spec fn iv(self) -> Seq<u8> {
        self.iv@
    }

    /// The entries gathered so far.
    pub closed spec fn entries(self) -> Seq<(Seq<char>, Seq<char>)> {
        self.document.entries()
    }

    /// The position of the module that the cycle waits for.
    pub closed spec fn position(self) -> int {
        self.position as int
    }

    /// The module that the cycle waits for.
    pub fn pending(&self) -> (module: &ModuleSpec)
        ensures
            0 <= self.position() < self.config().modules@.len(),
            *module == self.config().modules@[self.position()],
    {
        proof {
            use_type_invariant(self);
        }
        &self.config.modules[self.position]
    }

    /// Starts a cycle under a fresh IV.
    pub fn begin(config: &'a WorkerConfig, iv: [u8; 16]) -> (step: CycleStep<'a>)
        ensures
            step.continues(*config, iv@, Seq::empty(), 0),
    {
        Self::proceed(config, iv, Document::new(), 0)
    }

    /// Takes the output of the module that the cycle waited for. A module
    /// that exited with failure, or printed anything but one JSON value,
    /// fails the cycle. Else its value is put under its name, and the cycle
    /// goes on to the next module or, after the last, to the delivery.
    pub fn module_finished(self, exit_code: i32, stdout: &str) -> (step: CycleStep<'a>)
        ensures
            0 <= self.position() < self.config().modules@.len(),
            match module_value(exit_code, stdout@) {
                Some(text) => step.continues(
                    self.config(),
                    self.iv(),
                    upsert(self.entries(), self.config().modules@[self.position()].name@, text),
                    self.position() + 1,
                ),
                None => step matches CycleStep::Failed(error) && error@
                    == (CycleErrorView::ModuleExecution {
                    module: self.config().modules@[self.position()].name@,
                    output: stdout@,
                }),
            },
    {
        proof {
            use_type_invariant(&self);
        }
        let Cycle { config, iv, document, position } = self;
        let mut document = document;
        let count = config.modules.len();
        assert(position < count);
        match document.add(config.modules[position].name.as_str(), exit_code, stdout) {
            Ok(_) => Self::proceed(config, iv, document, position + 1),
            Err(failure) => CycleStep::Failed(CycleError::ModuleExecution(failure)),
        }
    }

    /// Goes on to the module at `position`, or to the delivery where no
    /// module is left.
    fn proceed(config: &'a WorkerConfig, iv: [u8; 16], document: Document, position: usize) -> (step:
        CycleStep<'a>)
        requires
            position <= config.modules@.len(),
        ensures
            step.continues(*config, iv@, document.entries(), position as int),
    {
        if position < config.modules.len() {
            return CycleStep::RunModule(Cycle { config, iv, document, position });
        }
        let text = document.into_text();
        match EncryptedPayload::seal(text.as_str(), config.pre_shared_key.as_str(), iv) {
            Ok(payload) => CycleStep::Deliver(
                Delivery { url: endpoint(config).format(false), body: request_body(&payload) },
            ),
            Err(error) => CycleStep::Failed(CycleError::Crypto(error)),
        }
    }
}

impl<'a> CycleStep<'a> {
    /// Whether this is the step that follows when `entries` have been
    /// gathered from the modules before `position`: the run of the module
    /// at `position`, or after the last module the delivery of the
    /// encrypted document, or the failure to encrypt it.
    pub open spec fn continues(
        self,
        config: WorkerConfig,
        iv: Seq<u8>,
        entries: Seq<(Seq<char>, Seq<char>)>,
        position: int,
    ) -> bool {
        if position < config.modules@.len() {
            self matches CycleStep::RunModule(cycle) && cycle.config() == config && cycle.iv() == iv
                && cycle.entries() == entries && cycle.position() == position
        } else if fits(object_text(entries)) {
            self matches CycleStep::Deliver(delivery) && delivery.url@ == endpoint_text(config)
                && delivery.body@ == sealed_body(entries, config.pre_shared_key@, iv)
        } else {
            self matches CycleStep::Failed(error) && error@ == CycleErrorView::Crypto(
                CryptoError::EncryptionFailed,
            )
        }
    }
}

impl Delivery {
    /// What came of the delivery: the collector's answer, or the failure.
    pub fn outcome(response: Result<String, String>) -> (r: Result<String, CycleError>)
        ensures
            match response {
                Ok(text) => r == Ok::<String, CycleError>(text),
                Err(detail) => r == Err::<String, CycleError>(CycleError::Delivery(detail)),
            },
    {
        match response {
            Ok(text) => Ok(text),
            Err(detail) => Err(CycleError::Delivery(detail)),
        }
    }
}

/// A line of the worker's log: the worker's id in square brackets, then the
/// text.
pub open spec fn log_line(worker_id: Seq<char>, text: Seq<char>) -> Seq<char> {
    "["@ + worker_id + "] "@ + text
}

/// The line that is logged before a module runs: it names the module and
/// gives its command as it is configured.
pub fn module_notice(worker_id: &str, module: &ModuleSpec) -> (line: String)
    ensures
        line@ == log_line(
            worker_id@,
            "module running: "@ + module.name@ + " | "@ + module.command@,
        ),
{
    let mut line = String::from_str("[");
    line.append(worker_id);
    line.append("] ");
    line.append("module running: ");
    line.append(module.name.as_str());
    line.append(" | ");
    line.append(module.command.as_str());
    assert(line@ =~= log_line(
        worker_id@,
        "module running: "@ + module.name@ + " | "@ + module.command@,
    ));
    line
}

/// The warning that is logged for a cycle without modules.
pub fn no_modules_warning(worker_id: &str) -> (line: String)
    ensures
        line@ == log_line(worker_id@, "no modules found in configuration!"@),
{
    let mut line = String::from_str("[");
    line.append(worker_id);
    line.append("] ");
    line.append("no modules found in configuration!");
    line
}

/// The line that is logged with the collector's answer.
pub fn response_notice(worker_id: &str, response: &str) -> (line: String)
    ensures
        line@ == log_line(worker_id@, "response: "@ + response@),
{
    let mut line = String::from_str("[");
    line.append(worker_id);
    line.append("] ");
    line.append("response: ");
    line.append(response);
    assert(line@ =~= log_line(worker_id@, "response: "@ + response@));
    line
}

} // verus!
