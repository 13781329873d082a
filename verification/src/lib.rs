//! Verified core of the OSConfig management platform: the management
//! interface model (MIM) schema store, the module registry and routing
//! decisions, the module test runner's decisions, baseline checks and the
//! small parsers that these rely on.

pub mod keyed;
pub mod mim;
pub mod schema_store;
pub mod config;
pub mod baseline;
pub mod registry;
pub mod platform;
pub mod text;
pub mod json;
pub mod testing;
pub mod codegen;
pub mod module;
pub mod cli;
pub mod sample_module;
pub mod prompt;
pub mod mpi;
