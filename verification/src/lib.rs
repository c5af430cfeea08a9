//! A scheduled push worker: it runs configured modules, gathers their JSON
//! output into one document, encrypts the document under a pre-shared secret
//! and hands the ciphertext to a collector.
//!
//! Everything in this crate is the decision-making part of that worker. The
//! process around it performs the waiting, the subprocess calls and the
//! network call.

pub mod url;
pub mod encoding;
pub mod hashenc;
pub mod validator;
pub mod config;
pub mod modules;
pub mod cycle;
pub mod scheduler;
pub mod shutdown;
