//! Declare a set of named, typed, labelled metrics once, resolve them into
//! registry entries, and mutate them through accessors that only offer the
//! operations of each metric's kind.

pub mod binding;
pub mod bundle;
pub mod exporter;
pub mod kind;
pub mod labels;
pub mod metric;
pub mod naming;
pub mod outside;
pub mod process;
pub mod rules;
pub mod schema;
pub mod text;
