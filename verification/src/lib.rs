//! Discovery and validation of JSON documents.
//!
//! The library decides which files under a set of roots count as JSON (or
//! JSON5) documents, puts them in order, and judges each one, either for
//! plain syntax or against a JSON Schema. It reads no file and no directory:
//! callers hand it what they saw (the kind of each root, the entries a
//! directory walk produced, the text of each file) and act on what it
//! returns.
//!
//! - [`filter`]: which paths are taken for documents.
//! - [`discovery`]: from the scan of the roots to the list of documents.
//! - [`order`]: the order in which documents are reported.
//! - [`validate`]: syntax checks and checks against a schema.
//! - [`driver`]: what a command line asks for and how a run is reported.
//! - [`error`]: the failures.
//! - [`text`]: matching and comparing text.
//! - [`outside`]: the calls into other crates, taken on trust.

pub mod discovery;
pub mod driver;
pub mod error;
pub mod filter;
pub mod order;
pub mod outside;
pub mod text;
pub mod validate;

pub use discovery::{find_json_documents, find_json_documents_sorted};
pub use error::KirillError;
pub use validate::{load_json_schema_validator, validate_json_file, validate_json_file_basic};
