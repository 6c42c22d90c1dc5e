//! The request gate: the two headers every request must carry.
//!
//! A request is served only with a JSON content type and with a
//! connection-string header that parses into the driver's connect
//! options; anything else is refused with a validation error before any
//! execution.  The accepted connection string is the registry key, used
//! verbatim.

use vstd::prelude::*;

use crate::decode::str_eq;
use crate::response::GatewayError;

verus! {

/// Whether the driver parses `s` into MySQL connect options.  The parse
/// reads the string alone, so its outcome is a function of the string; it
/// is named here rather than restated.
pub uninterp spec fn mysql_url_ok(s: Seq<char>) -> bool;

/// Relies on sqlx's `FromStr` impl for `MySqlConnectOptions`: it parses
/// the given string as a URL and reads nothing else, so whether it
/// succeeds depends on the string alone.  The error case carries the
/// driver's message.
#[verifier::external_body]
fn parse_connect_options(s: &str) -> (r: Result<(), String>)
    ensures
        r is Ok <==> mysql_url_ok(s@),
{
    match s.parse::<sqlx::mysql::MySqlConnectOptions>() {
        Ok(_) => Ok(()),
        Err(e) => Err(e.to_string()),
    }
}

/// Validates the transport-level requirements of a request and returns
/// the connection string to key the registry with.  Succeeds exactly when
/// the content type is present and reads `application/json`, and the
/// connection-string header is present and parses into connect options;
/// every refusal is a validation error.
pub fn validate_headers(content_type: Option<&str>, connection_string: Option<&str>) -> (r: Result<
    String,
    GatewayError,
>)
    ensures
        r is Ok <==> ({
            &&& content_type matches Some(ct) && ct@ == "application/json"@
            &&& connection_string matches Some(cs) && mysql_url_ok(cs@)
        }),
        r matches Ok(s) ==> (connection_string matches Some(cs) && s@ == cs@),
        r matches Err(e) ==> e is Validation,
{
    let ct = match content_type {
        Option::Some(ct) => ct,
        Option::None => {
            return Err(
                GatewayError::Validation(String::from_str("content-type header missing")),
            );
        },
    };
    if !str_eq(ct, "application/json") {
        return Err(
            GatewayError::Validation(String::from_str("content-type must be application/json")),
        );
    }
    let cs = match connection_string {
        Option::Some(cs) => cs,
        Option::None => {
            return Err(
                GatewayError::Validation(String::from_str("connection-string header missing")),
            );
        },
    };
    match parse_connect_options(cs) {
        Ok(_) => Ok(cs.to_owned()),
        Err(m) => Err(GatewayError::Validation(m)),
    }
}

} // verus!
