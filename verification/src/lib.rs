//! A verified bridge between structured application data and the dynamic,
//! schema-tagged value tree of a row-oriented serialization format.
//!
//! The crate has two halves: a serialization dispatcher with its aggregate
//! builders, which turn already-visited primitive and nested values into one
//! tagged [`values::Value`]; and a schema-equality subsystem with a
//! replaceable comparison strategy and a set-once registration slot.
pub mod values;
pub mod ser;
pub mod schema;
pub mod schema_equality;
