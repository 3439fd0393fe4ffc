use vstd::prelude::*;

use crate::text::{trim, trim_str};

verus! {

/// The control characters U+0000 to U+001F.
pub open spec fn is_control(c: char) -> bool {
    c <= '\u{1f}'
}

/// `s` without its control characters, the others kept in order.
pub open spec fn without_controls(s: Seq<char>) -> Seq<char> {
    s.filter(|c: char| !is_control(c))
}

/// Relies on `regex::Regex::replace_all` with the class `[\x00-\x1F]` and an
/// empty replacement: each character from U+0000 to U+001F is removed and the
/// others are kept in order. The pattern is a valid one, so `Regex::new` succeeds.
#[verifier::external_body]
fn strip_control_chars(s: &str) -> (r: String)
    ensures
        r@ == without_controls(s@),
{
    regex::Regex::new(r"[\x00-\x1F]").unwrap().replace_all(s, "").into_owned()
}

/// Cleans a secret seed phrase before key derivation: white space is trimmed
/// from both ends, then every control character is removed.
pub fn clean_seed(seed: &str) -> (r: String)
    ensures
        r@ == without_controls(trim(seed@)),
{
    strip_control_chars(trim_str(seed))
}

} // verus!
