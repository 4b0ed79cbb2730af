//! A reflection layer for statically generated record types: one polymorphic
//! field accessor per declared field, built from per-field getter functions,
//! exposing a uniform, schema-agnostic interface to generic algorithms.
//!
//! `accessor` holds the tagged accessor object and its factory functions;
//! `value` the erased scalar value and the enum-value capability;
//! `containers` the type-erased repeated and map views a container-shaped
//! field exposes; `laws` the proved statements that tie them together.

pub mod accessor;
pub mod containers;
pub mod laws;
pub mod value;
