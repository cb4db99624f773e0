//! A small build service: named build targets from a configuration file, one
//! HTTP route pair per target, isolated per-request workspaces for uploaded
//! sources, and the rules that turn a finished build into a result.
//!
//! Everything here computes on plain values; the program around it performs
//! the file system, process and network work.

pub mod config;
pub mod dispatch;
pub mod paths;
pub mod routes;
pub mod upload;
pub mod workspace;
