//! Credential gating: the bearer-style authorization value attached to
//! an outgoing call's metadata. The header is attached if and only if
//! the configured credential string is non-empty.

use vstd::prelude::*;
use vstd::string::StringExecFns;

verus! {

/// The bearer-style header value carrying a credential token.
pub open spec fn bearer_value(token: Seq<char>) -> Seq<char> {
    "Bearer "@ + token
}

/// The authorization metadata value owed for a configured credential:
/// none for an empty credential, otherwise the bearer-style value
/// wrapping exactly the configured token.
pub fn auth_header_value(authorization: &String) -> (r: Option<String>)
    ensures
        authorization@.len() == 0 <==> r is None,
        r matches Option::Some(v) ==> v@ == bearer_value(authorization@),
{
    if authorization.as_str().is_empty() {
        Option::None
    } else {
        let mut value: String = String::from_str("Bearer ");
        value.append(authorization.as_str());
        Option::Some(value)
    }
}

} // verus!
