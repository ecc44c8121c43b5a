//! Order placement and retrieval for a small web backend: the authorizer,
//! the order creation workflow and the aggregation of joined order rows into
//! per-order totals.
//!
//! The library decides and computes; it neither talks to a store nor to a
//! network. A lookup takes the rows that a query returned, a workflow takes
//! what happened outside as events and answers with what to do next.

pub mod aggregate;
pub mod auth;
pub mod creation;
pub mod failure;
pub mod model;
pub mod outside;
pub mod store;
pub mod token;
pub mod workflow;
