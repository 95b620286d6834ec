//! Keyword filtering, line matching and line transforms for log streams.

pub mod args;
pub mod config;
pub mod filter;
pub mod kafka_sink;
pub mod matcher;
pub mod reader;
pub mod regex_ops;
pub mod text;
pub mod transform;
