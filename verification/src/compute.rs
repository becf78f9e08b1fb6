//! The decision steps of the compute operation.
//!
//! The operation suspends twice on the outside world: reading and decoding
//! the inbound request body, and the outbound rate-lookup call together
//! with the single-precision arithmetic on its result.  The embedding
//! program performs those steps and reports each outcome as a plain value;
//! the functions here decide, for every possible outcome, how the request
//! proceeds — and in particular how every failure collapses into the
//! closed error taxonomy.

use crate::errors::ComputeError;
use crate::order::Order;
use vstd::prelude::*;

verus! {

/// The outcome of reading the inbound request body and decoding it as an
/// order.
pub enum OrderIntake {
    /// The body could not be read; carries the rendered cause.
    BodyUnreadable(String),
    /// The body was read but was not a structurally valid order: a missing
    /// required field, a wrong type, or no JSON at all.
    Malformed,
    /// The decoded order.
    Parsed(Order),
}

/// How each intake outcome proceeds: a read failure is an internal error,
/// a decode failure rejects the request, and a decoded order goes on to
/// the rate lookup.
pub open spec fn spec_accept_order(intake: OrderIntake) -> Result<Order, ComputeError> {
    match intake {
        OrderIntake::BodyUnreadable(cause) => Err(ComputeError::Unexpected(cause)),
        OrderIntake::Malformed => Err(ComputeError::InvalidRequest),
        OrderIntake::Parsed(order) => Ok(order),
    }
}

/// Decides how an intake outcome proceeds.
pub fn accept_order(intake: OrderIntake) -> (r: Result<Order, ComputeError>)
    ensures
        r == spec_accept_order(intake),
{
    match intake {
        OrderIntake::BodyUnreadable(cause) => Err(ComputeError::Unexpected(cause)),
        OrderIntake::Malformed => Err(ComputeError::InvalidRequest),
        OrderIntake::Parsed(order) => Ok(order),
    }
}

/// The outcome of the outbound rate lookup for an order's zip code.
pub enum RateLookup {
    /// The lookup service could not be reached, or its reply body could
    /// not be read.
    Unreachable,
    /// The reply body was not parseable as a number.
    NotNumeric,
    /// The lookup succeeded: the reply parsed as a rate and the embedding
    /// program evaluated `subtotal * (1 + rate)` in single precision;
    /// carries the bit pattern of that product.
    TotalBits(u32),
}

/// How each lookup outcome proceeds: every failure of the lookup — the
/// service down, the network gone, a non-numeric reply — collapses into
/// the single rate-not-available kind; a successful lookup yields the
/// order with its total overwritten by the computed product.
pub open spec fn spec_apply_rate_lookup(order: Order, lookup: RateLookup) -> Result<
    Order,
    ComputeError,
> {
    match lookup {
        RateLookup::Unreachable => Err(ComputeError::TaxRateNotAvailable),
        RateLookup::NotNumeric => Err(ComputeError::TaxRateNotAvailable),
        RateLookup::TotalBits(total_bits) => Ok(order.spec_with_total(total_bits)),
    }
}

/// Decides how a rate-lookup outcome proceeds.
pub fn apply_rate_lookup(order: Order, lookup: RateLookup) -> (r: Result<Order, ComputeError>)
    ensures
        r == spec_apply_rate_lookup(order, lookup),
{
    match lookup {
        RateLookup::Unreachable => Err(ComputeError::TaxRateNotAvailable),
        RateLookup::NotNumeric => Err(ComputeError::TaxRateNotAvailable),
        RateLookup::TotalBits(total_bits) => Ok(order.with_total(total_bits)),
    }
}

/// How the final serialization outcome proceeds: the serialized order is
/// the success body; a serialization failure is an internal error carrying
/// its rendered cause.
pub open spec fn spec_accept_serialized(outcome: Result<String, String>) -> Result<
    String,
    ComputeError,
> {
    match outcome {
        Ok(body) => Ok(body),
        Err(cause) => Err(ComputeError::Unexpected(cause)),
    }
}

/// Decides how the final serialization outcome proceeds.
pub fn accept_serialized(outcome: Result<String, String>) -> (r: Result<String, ComputeError>)
    ensures
        r == spec_accept_serialized(outcome),
{
    match outcome {
        Ok(body) => Ok(body),
        Err(cause) => Err(ComputeError::Unexpected(cause)),
    }
}

} // verus!
