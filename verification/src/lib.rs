//! Backend integration layer of an invoice front-end: locating the generator,
//! preparing its working directory, interpreting its runs, collecting what it
//! produced and reading back the shared invoice catalog.
//!
//! Every function here works on plain values. Asking the platform for its
//! directories, touching files, running processes and talking to the database
//! are left to the caller, which hands the observations in and carries the
//! decisions out.

pub mod catalog;
pub mod collector;
pub mod environment;
pub mod error;
pub mod fields;
pub mod invoker;
pub mod paths;
pub mod reconcile;
pub mod settings;
pub mod store;
pub mod text;
