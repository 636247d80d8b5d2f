//! Product catalog data provider.
//!
//! The library holds a fixed, in-memory catalog of product records and
//! exposes one read accessor over it. The accessor is total: it takes a
//! configuration value it does not consume, cannot fail, and returns the
//! same sequence of records on every call, in ascending id order.

pub mod configuration;
pub mod data;
pub mod model;
