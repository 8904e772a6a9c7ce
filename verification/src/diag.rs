//! Diagnostic messages: every line this tool reports is prefixed with the
//! product tag and a severity marker.

use vstd::prelude::*;
use vstd::string::StringExecFns;

verus! {

/// The fixed product tag that prefixes every diagnostic line.
pub open spec fn tag() -> Seq<char> {
    "spwn-CMPL: "@
}

/// Builds a diagnostic line: product tag, then severity marker, then text.
pub fn err(level: &str, text: &str) -> (r: String)
    ensures
        r@ == tag() + level@ + text@,
{
    let mut r = String::new();
    r.append("spwn-CMPL: ");
    r.append(level);
    r.append(text);
    r
}

} // verus!
