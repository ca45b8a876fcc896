//! Schema-change administration: recording DDL, producing migration
//! artifacts, guarding the configuration and caching table metadata.

pub mod artifact;
pub mod config;
pub mod digest;
pub mod drop_table;
pub mod email;
pub mod error;
pub mod guard;
pub mod listing;
pub mod metadata;
pub mod operation;
pub mod recorder;
pub mod replay;
pub mod request;
pub mod rows;
pub mod text;
