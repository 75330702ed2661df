//! A chat bot's core: article records, the source collectors' pure parts,
//! multi-source aggregation and the length-bounded reply formatter.

pub mod aggregate;
pub mod article;
pub mod bot;
pub mod collectors;
pub mod config;
pub mod format;
pub mod text;
pub mod wire;
