//! What the upstream GraphQL service is asked: the fixed query text and
//! the per-request variables object. Sending the request and decoding the
//! response body happen outside the library; the flattening of a decoded
//! response lives in `contributions`.

use vstd::prelude::*;

verus! {

/// The fixed GraphQL query sent for every request: the grand total and the
/// per-day calendar, grouped week by week.
pub fn contributions_query() -> (r: &'static str)
    ensures
        r@ == "query($userName:String!) { user(login: $userName) { contributionsCollection { contributionCalendar { totalContributions weeks { contributionDays { contributionCount date } } } } } }"@,
{
    "query($userName:String!) { user(login: $userName) { contributionsCollection { contributionCalendar { totalContributions weeks { contributionDays { contributionCount date } } } } } }"
}

/// The GraphQL variables object for one request: a JSON object binding
/// `userName` to the identity the request resolved to. The identity is
/// embedded verbatim, exactly as stated.
pub fn variables_body(identity: &str) -> (r: String)
    ensures
        r@ == "{\"userName\": \""@ + identity@ + "\"}"@,
{
    let mut r = String::from_str("{\"userName\": \"");
    r.append(identity);
    r.append("\"}");
    r
}

} // verus!
