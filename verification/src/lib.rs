//! Incremental ingestion of repository history into one relational store:
//! commits with their files and a skip-list ancestor index, and named
//! references, each repository keeping stable integer ids across runs.

pub mod config;
pub mod database;
pub mod error;
pub mod handler;
pub mod state;
pub mod text;
