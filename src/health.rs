use vstd::prelude::*;

verus! {

/// Where the liveness probe listens: a fixed port on the loopback interface.
pub const HEALTH_CHECK_ADDRESS: &'static str = "127.0.0.1:9999";

/// The reply that every probe gets, whatever it sent.
pub const HEALTH_RESPONSE: &'static str = "HTTP/1.1 200 OK\r\n\r\n";

/// The reply to a probe: the same success line for any request.
pub fn health_response(_request: &[String]) -> (r: &'static str)
    ensures
        r@ == HEALTH_RESPONSE@,
{
    HEALTH_RESPONSE
}

/// Whether a line read from a probe closes its header block: a blank line.
pub fn ends_request(line: &str) -> (r: bool)
    ensures
        r == (line@.len() == 0),
{
    line.unicode_len() == 0
}

} // verus!
