//! The service's configuration: one read-once setting, the rate-lookup
//! service URL, plus the fixed port the front door listens on.

use vstd::prelude::*;
use vstd::string::*;

verus! {

/// The port the front door binds.
pub const SERVICE_PORT: u16 = 8002;

/// The rate-lookup service URL used when none is configured.
pub open spec fn spec_default_rate_service_url() -> Seq<char> {
    "http://localhost:8001/find_rate"@
}

/// Resolves the rate-lookup service URL: the configured value when one is
/// present, the default otherwise.  The embedding program reads the
/// environment once at startup and passes what it found; the result is
/// read-only for the process lifetime.
pub fn rate_service_url(configured: Option<String>) -> (r: String)
    ensures
        configured matches Some(url) ==> r@ == url@,
        configured is None ==> r@ == spec_default_rate_service_url(),
{
    match configured {
        Option::Some(url) => url,
        Option::None => String::from_str("http://localhost:8001/find_rate"),
    }
}

} // verus!
