//! A verified core for an order-total microservice.
//!
//! The service accepts an order, looks up a sales-tax rate for the order's
//! zip code from an external service, computes the order total, and returns
//! the enriched order.  Everything that decides — routing, the error
//! taxonomy and its mapping to HTTP statuses, response assembly with CORS
//! headers, the JSON error envelope, and the order-update step — lives here
//! with contracts.  The embedding program performs the actual socket,
//! HTTP-client and JSON-codec work and feeds the outcomes to this crate as
//! plain values.

pub mod compute;
pub mod config;
pub mod errors;
pub mod http;
pub mod json;
pub mod order;
