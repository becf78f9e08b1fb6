//! The order: the sole domain entity.
//!
//! The monetary fields travel on the wire as single-precision
//! floating-point numbers.  This crate carries them as their IEEE-754 bit
//! patterns (`u32`), which identify the values exactly; the embedding
//! program converts between the two representations and performs the one
//! piece of floating-point arithmetic, `total = subtotal * (1 + rate)`.

use vstd::prelude::*;
use vstd::string::*;

verus! {

/// A purchase awaiting tax computation.  The identifier and count fields
/// are opaque and pass through unvalidated; `shipping_zip` is the key sent
/// verbatim to the rate-lookup service; `total_bits` is overwritten
/// unconditionally on every request, whatever the client sent.
#[derive(Debug)]
pub struct Order {
    pub order_id: i32,
    pub product_id: i32,
    pub quantity: i32,
    /// Bit pattern of the pre-tax amount.
    pub subtotal_bits: u32,
    pub shipping_address: String,
    pub shipping_zip: String,
    /// Bit pattern of the computed total.
    pub total_bits: u32,
}

/// True when two orders agree on every field except the total.
pub open spec fn same_except_total(a: Order, b: Order) -> bool {
    &&& a.order_id == b.order_id
    &&& a.product_id == b.product_id
    &&& a.quantity == b.quantity
    &&& a.subtotal_bits == b.subtotal_bits
    &&& a.shipping_address == b.shipping_address
    &&& a.shipping_zip == b.shipping_zip
}

impl Order {
    /// The order with its total replaced and every other field kept.
    pub open spec fn spec_with_total(self, total_bits: u32) -> Order {
        Order { total_bits, ..self }
    }

    /// Overwrites the total with the freshly computed value.  The result
    /// does not depend on the total the order arrived with.
    pub fn with_total(self, total_bits: u32) -> (r: Order)
        ensures
            r == self.spec_with_total(total_bits),
    {
        Order { total_bits, ..self }
    }

    /// The body of the outbound rate-lookup request: the order's zip code,
    /// verbatim, with no JSON wrapping.
    pub fn rate_request_body(&self) -> (r: String)
        ensures
            r@ == self.shipping_zip@,
    {
        self.shipping_zip.clone()
    }
}

/// Law: the total carried by an incoming order is never trusted.  Two
/// orders that differ only in their incoming total yield the same order
/// once the computed total is written, so nothing of the client-supplied
/// total survives into the response.
pub proof fn lemma_input_total_ignored(a: Order, b: Order, total_bits: u32)
    requires
        same_except_total(a, b),
    ensures
        a.spec_with_total(total_bits) == b.spec_with_total(total_bits),
{
}

} // verus!
