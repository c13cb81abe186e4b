//! A widget ingestion service: a single "create widget" operation that
//! assigns a fresh identifier to an arbitrary JSON payload, measures the
//! payload's serialized byte length, and decides an artificial response
//! delay from a configuration value.

pub mod config;
pub mod ident;
pub mod widget;
