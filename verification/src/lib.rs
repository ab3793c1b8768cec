//! Marshalling of dynamically typed, provider-owned rows into fixed-shape,
//! caller-owned records.
//!
//! A remote object store answers a query with a forward-only cursor over rows.
//! Each row is a bag of named, dynamically typed attributes whose raw values
//! are owned by the provider and must be released after use.  This crate
//! models that data source and verifies the marshalling discipline around it:
//! classifying each attribute fetch into a small outcome taxonomy, applying a
//! per-field recovery policy, stepping the cursor at most once per record,
//! and releasing every fetched raw value exactly once on every path.

pub mod cursor;
pub mod marshal;
pub mod outcome;
pub mod query;
pub mod row;
pub mod shapes;
