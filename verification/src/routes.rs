use crate::text::{decimal, to_decimal};
use vstd::prelude::*;
use vstd::string::StringExecFns;

verus! {

/// The link that completes a challenge when visited: the route `verify`
/// under the base URL, with the challenge's id and its raw code as query
/// parameters.
pub open spec fn link(base_url: Seq<char>, challenge_id: i64, code: Seq<char>) -> Seq<char> {
    base_url + "verify?id="@ + decimal(challenge_id as int) + "&code="@ + code
}

/// Builds the link that completes a challenge when visited.
pub fn confirmation_link(base_url: &str, challenge_id: i64, code: &str) -> (url: String)
    ensures
        url@ == link(base_url@, challenge_id, code@),
{
    let id = to_decimal(challenge_id);
    let mut url = base_url.to_owned();
    url.append("verify?id=");
    url.append(id.as_str());
    url.append("&code=");
    url.append(code);
    url
}

} // verus!
