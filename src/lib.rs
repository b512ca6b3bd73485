//! A harness for driving an embedded chain: typed execute and query bindings
//! over a byte-level runner, and a governance workflow built on them.
pub mod error;
pub mod types;
pub mod codec;
pub mod runner;
pub mod module;
pub mod gov;
