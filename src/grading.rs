use vstd::prelude::*;

verus! {

/// Name of the header that carries the grading service's key.
pub const API_KEY_HEADER: &'static str = "X-API-KEY";

/// The HTTP status of a successful reply.
pub const STATUS_OK: u16 = 200;

/// The decimal digits, in order of value.
pub const DIGITS: &'static str = "0123456789";

/// The decimal digit for `d`, which is below ten.
pub open spec fn digit_char(d: nat) -> char {
    DIGITS@[d as int]
}

/// The decimal notation of `n`, without leading zeros.
pub open spec fn decimal(n: nat) -> Seq<char>
    decreases n,
{
    if n < 10 {
        seq![digit_char(n)]
    } else {
        decimal(n / 10).push(digit_char(n % 10))
    }
}

fn digit_str(d: u32) -> (r: &'static str)
    requires
        d < 10,
    ensures
        r@ == seq![digit_char(d as nat)],
{
    proof {
        reveal_strlit("0123456789");
    }
    let r = DIGITS.substring_char(d as usize, d as usize + 1);
    proof {
        assert(r@ =~= seq![digit_char(d as nat)]);
    }
    r
}

/// Writes `n` in decimal.
pub fn decimal_string(n: u32) -> (r: String)
    ensures
        r@ == decimal(n as nat),
    decreases n,
{
    if n < 10 {
        String::from_str(digit_str(n))
    } else {
        let mut s = decimal_string(n / 10);
        s.append(digit_str(n % 10));
        s
    }
}

/// How the grading service is reached.
#[derive(Clone, Debug)]
pub struct GradeSettings {
    /// Whether grades are fetched at all.
    pub enabled: bool,
    /// The service's base address; empty to derive it from the chain's name.
    pub api_url: String,
    /// The key sent in the `X-API-KEY` header.
    pub api_key: String,
    /// How many recent sessions the grade covers.
    pub number_last_sessions: u32,
}

/// A grade request ready to be sent.
#[derive(Clone, Debug)]
pub struct GradeRequest {
    pub url: String,
    pub api_key: String,
}

/// The service's base address: the configured one, or one named after the chain.
pub open spec fn spec_grade_endpoint(api_url: Seq<char>, chain_name: Seq<char>) -> Seq<char> {
    if api_url.len() > 0 {
        api_url
    } else {
        "https://"@ + chain_name + "-onet-api-beta.turboflakes.io"@
    }
}

/// The address of a stash's grade over the last `sessions` sessions.
pub open spec fn spec_grade_url(endpoint: Seq<char>, stash: Seq<char>, sessions: nat) -> Seq<char> {
    endpoint + "/api/v1/validators/"@ + stash + "/grade?number_last_sessions="@ + decimal(sessions)
}

/// The grading service's base address for a chain.
pub fn grade_endpoint(api_url: &str, chain_name: &str) -> (r: String)
    ensures
        r@ == spec_grade_endpoint(api_url@, chain_name@),
{
    if api_url.unicode_len() > 0 {
        String::from_str(api_url)
    } else {
        let mut s = String::from_str("https://");
        s.append(chain_name);
        s.append("-onet-api-beta.turboflakes.io");
        s
    }
}

/// The address of a stash's grade.
pub fn grade_url(endpoint: &str, stash: &str, sessions: u32) -> (r: String)
    ensures
        r@ == spec_grade_url(endpoint@, stash@, sessions as nat),
{
    let mut s = String::from_str(endpoint);
    s.append("/api/v1/validators/");
    s.append(stash);
    s.append("/grade?number_last_sessions=");
    let n = decimal_string(sessions);
    s.append(n.as_str());
    s
}

/// Prepares the request for a stash's grade. Where grading is switched off
/// there is nothing to send: `None`, and no call is to be made.
pub fn plan_grade_request(settings: &GradeSettings, chain_name: &str, stash: &str) -> (r: Option<
    GradeRequest,
>)
    ensures
        match r {
            None => !settings.enabled,
            Some(req) => settings.enabled && req.url@ == spec_grade_url(
                spec_grade_endpoint(settings.api_url@, chain_name@),
                stash@,
                settings.number_last_sessions as nat,
            ) && req.api_key@ == settings.api_key@,
        },
{
    if !settings.enabled {
        return None;
    }
    let endpoint = grade_endpoint(settings.api_url.as_str(), chain_name);
    let url = grade_url(endpoint.as_str(), stash, settings.number_last_sessions);
    let api_key = String::from_str(settings.api_key.as_str());
    Some(GradeRequest { url, api_key })
}

/// Whether a reply with this status carries a grade worth reading.
pub fn reads_grade_body(status: u16) -> (r: bool)
    ensures
        r == (status == STATUS_OK),
{
    status == STATUS_OK
}

/// The grade that a reply gives. `status` is `None` where the request never got
/// a reply, and `parsed` is `None` where the body could not be read as a grade.
/// Only a successful status with a readable body gives a grade; every failure
/// comes out as `None`, never as an error.
pub fn grade_from_response<T>(status: Option<u16>, parsed: Option<T>) -> (r: Option<T>)
    ensures
        r == (if status == Some(STATUS_OK) {
            parsed
        } else {
            None
        }),
{
    match status {
        Some(code) => if reads_grade_body(code) {
            parsed
        } else {
            None
        },
        None => None,
    }
}

} // verus!
