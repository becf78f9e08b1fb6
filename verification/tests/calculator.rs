use order_total::compute::OrderIntake;
use order_total::compute::RateLookup;
use order_total::compute::accept_order;
use order_total::compute::accept_serialized;
use order_total::compute::apply_rate_lookup;
use order_total::config::SERVICE_PORT;
use order_total::config::rate_service_url;
use order_total::errors::ComputeError;
use order_total::errors::ErrorResponse;
use order_total::errors::error_body;
use order_total::errors::message_text;
use order_total::errors::status_code;
use order_total::json::json_escape;
use order_total::order::Order;

fn sample_order() -> Order {
    Order {
        order_id: 1,
        product_id: 12,
        quantity: 3,
        subtotal_bits: 100.0f32.to_bits(),
        shipping_address: String::from("123 Main Street Anytown, US"),
        shipping_zip: String::from("10001"),
        total_bits: 0.0f32.to_bits(),
    }
}

#[test]
fn status_codes_per_kind() {
    assert_eq!(status_code(&ComputeError::InvalidRequest), 400);
    assert_eq!(status_code(&ComputeError::TaxRateNotAvailable), 503);
    assert_eq!(status_code(&ComputeError::Unexpected(String::from("x"))), 500);
}

#[test]
fn messages_per_kind() {
    assert_eq!(message_text(&ComputeError::InvalidRequest), "invalid request");
    assert_eq!(
        message_text(&ComputeError::TaxRateNotAvailable),
        "The zip code in the order does not have a corresponding sales tax rate.",
    );
    assert_eq!(message_text(&ComputeError::Unexpected(String::from("cause"))), "cause");
}

#[test]
fn error_response_new_tags_status_error() {
    let envelope = ErrorResponse::new("something went wrong");
    assert_eq!(envelope.status, "error");
    assert_eq!(envelope.message, "something went wrong");
}

#[test]
fn error_envelope_serializes_exactly() {
    let envelope = ErrorResponse::new("x");
    assert_eq!(envelope.to_json(), "{\"status\":\"error\",\"message\":\"x\"}");
}

#[test]
fn error_body_per_kind() {
    assert_eq!(
        error_body(&ComputeError::InvalidRequest),
        "{\"status\":\"error\",\"message\":\"invalid request\"}",
    );
    assert_eq!(
        error_body(&ComputeError::Unexpected(String::from("io fault"))),
        "{\"status\":\"error\",\"message\":\"io fault\"}",
    );
}

#[test]
fn escape_leaves_plain_text_alone() {
    assert_eq!(json_escape("hello world"), "hello world");
    assert_eq!(json_escape(""), "");
    assert_eq!(json_escape("héllo ✓"), "héllo ✓");
}

#[test]
fn escape_quotes_and_backslashes() {
    assert_eq!(json_escape("a\"b\\c"), "a\\\"b\\\\c");
}

#[test]
fn escape_common_control_characters() {
    assert_eq!(json_escape("a\nb\rc\td"), "a\\nb\\rc\\td");
}

#[test]
fn escape_rare_control_characters() {
    assert_eq!(json_escape("\u{1}"), "\\u0001");
    assert_eq!(json_escape("\u{1f}"), "\\u001f");
    assert_eq!(json_escape("x\u{0}y"), "x\\u0000y");
}

#[test]
fn accept_order_per_outcome() {
    let o = sample_order();
    match accept_order(OrderIntake::Parsed(o)) {
        Ok(parsed) => assert_eq!(parsed.order_id, 1),
        Err(_) => panic!("a parsed order must be accepted"),
    }
    assert!(matches!(
        accept_order(OrderIntake::Malformed),
        Err(ComputeError::InvalidRequest)
    ));
    match accept_order(OrderIntake::BodyUnreadable(String::from("read failed"))) {
        Err(ComputeError::Unexpected(cause)) => assert_eq!(cause, "read failed"),
        _ => panic!("an unreadable body must be an unexpected failure"),
    }
}

#[test]
fn rate_lookup_failures_collapse() {
    let o = sample_order();
    assert!(matches!(
        apply_rate_lookup(o, RateLookup::Unreachable),
        Err(ComputeError::TaxRateNotAvailable)
    ));
    let o = sample_order();
    assert!(matches!(
        apply_rate_lookup(o, RateLookup::NotNumeric),
        Err(ComputeError::TaxRateNotAvailable)
    ));
}

#[test]
fn rate_lookup_success_overwrites_total() {
    let o = sample_order();
    let total = 100.0f32 * (1.0 + 0.07);
    let updated = apply_rate_lookup(o, RateLookup::TotalBits(total.to_bits())).unwrap();
    let got = f32::from_bits(updated.total_bits);
    assert!((got - 107.0).abs() < 1e-3);
    assert_eq!(updated.order_id, 1);
    assert_eq!(updated.shipping_zip, "10001");
    assert_eq!(f32::from_bits(updated.subtotal_bits), 100.0);
}

#[test]
fn accept_serialized_per_outcome() {
    match accept_serialized(Ok(String::from("{}"))) {
        Ok(body) => assert_eq!(body, "{}"),
        Err(_) => panic!("a serialized body must be accepted"),
    }
    match accept_serialized(Err(String::from("encode failed"))) {
        Err(ComputeError::Unexpected(cause)) => assert_eq!(cause, "encode failed"),
        _ => panic!("a serialization failure must be an unexpected failure"),
    }
}

#[test]
fn with_total_ignores_incoming_total() {
    let mut a = sample_order();
    a.total_bits = 999.0f32.to_bits();
    let mut b = sample_order();
    b.total_bits = 1.5f32.to_bits();
    let t = 107.0f32.to_bits();
    let ra = a.with_total(t);
    let rb = b.with_total(t);
    assert_eq!(ra.total_bits, t);
    assert_eq!(rb.total_bits, t);
    assert_eq!(ra.order_id, rb.order_id);
    assert_eq!(ra.subtotal_bits, rb.subtotal_bits);
    assert_eq!(ra.shipping_address, rb.shipping_address);
    assert_eq!(ra.shipping_zip, rb.shipping_zip);
}

#[test]
fn rate_request_body_is_the_zip() {
    let o = sample_order();
    assert_eq!(o.rate_request_body(), "10001");
}

#[test]
fn resubmitted_order_gets_total_recomputed() {
    // An order whose total is already filled in goes over the wire, comes
    // back as JSON, and is re-submitted: the total must be recomputed from
    // the subtotal and the live rate, never echoed.
    let stale_total = 999.0f32;
    let wire = format!(
        "{{\"order_id\":7,\"product_id\":2,\"quantity\":4,\"subtotal\":50.0,\
         \"shipping_address\":\"1 Elm\",\"shipping_zip\":\"94041\",\"total\":{}}}",
        stale_total,
    );
    let value: serde_json::Value = serde_json::from_str(&wire).unwrap();
    let reread = Order {
        order_id: value.get("order_id").unwrap().as_i64().unwrap() as i32,
        product_id: value.get("product_id").unwrap().as_i64().unwrap() as i32,
        quantity: value.get("quantity").unwrap().as_i64().unwrap() as i32,
        subtotal_bits: (value.get("subtotal").unwrap().as_f64().unwrap() as f32).to_bits(),
        shipping_address: String::from(value.get("shipping_address").unwrap().as_str().unwrap()),
        shipping_zip: String::from(value.get("shipping_zip").unwrap().as_str().unwrap()),
        total_bits: (value.get("total").unwrap().as_f64().unwrap() as f32).to_bits(),
    };
    assert_eq!(f32::from_bits(reread.total_bits), stale_total);
    let rate = 0.07f32;
    let live_total = f32::from_bits(reread.subtotal_bits) * (1.0 + rate);
    let updated = apply_rate_lookup(reread, RateLookup::TotalBits(live_total.to_bits())).unwrap();
    let got = f32::from_bits(updated.total_bits);
    assert!((got - 53.5).abs() < 1e-3);
    assert_ne!(got, stale_total);
}

#[test]
fn rate_service_url_default_and_override() {
    assert_eq!(rate_service_url(None), "http://localhost:8001/find_rate");
    assert_eq!(
        rate_service_url(Some(String::from("http://rates.internal/find_rate"))),
        "http://rates.internal/find_rate",
    );
}

#[test]
fn service_port_is_fixed() {
    assert_eq!(SERVICE_PORT, 8002);
}
