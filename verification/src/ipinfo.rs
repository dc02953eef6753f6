//! Extraction of an address from the text an address-discovery service
//! returns: either plain text carrying the address, or a JSON object whose
//! `origin` field carries it. This feeds display output around session
//! establishment; the session itself never depends on it.

use vstd::prelude::*;
use crate::text::{has_ascii_digit, trimmed};
use crate::text::{contains_ascii_digit, trim_line};

verus! {

broadcast use vstd::string::to_string_from_display_ensures_for_str;

/// How a discovery service formats its response.
#[derive(Clone, Copy, Debug)]
pub enum ServiceFormat {
    /// The body is the address itself, possibly padded with whitespace.
    PlainText,
    /// The body is a JSON object whose `origin` field holds the address.
    JsonOrigin,
}

/// Why no address could be extracted from a response.
#[derive(PartialEq, Eq, Structural, Clone, Copy, Debug)]
pub enum IpTextError {
    /// A JSON response did not parse as JSON.
    MalformedJson,
    /// The candidate text is empty or holds no digit at all.
    NotAnAddress,
}

/// Whether the response text parses as JSON.
pub uninterp spec fn json_well_formed(text: Seq<char>) -> bool;

/// The string value of the `origin` field of the parsed JSON response, if
/// the field is present and is a string.
pub uninterp spec fn json_origin(text: Seq<char>) -> Option<Seq<char>>;

/// Relies on serde_json::from_str::<Value> for JSON well-formedness and on
/// Value::get and Value::as_str for the `origin` string field; each result
/// depends on the response text alone.
#[verifier::external_body]
fn parse_origin(text: &str) -> (r: Result<Option<String>, ()>)
    ensures
        (r is Ok) == json_well_formed(text@),
        r matches Ok(o) ==> {
            &&& (o is Some) == (json_origin(text@) is Some)
            &&& (o matches Some(s) ==> json_origin(text@) == Some(s@))
        },
{
    match serde_json::from_str::<serde_json::Value>(text) {
        Ok(v) => Ok(v.get("origin").and_then(|o| o.as_str()).map(|s| s.to_string())),
        Err(_) => Err(()),
    }
}

/// The candidate address a response text yields before validation: the
/// trimmed body for a plain-text service, the `origin` field — or empty
/// text when it is absent — for a JSON service.
pub open spec fn extracted(format: ServiceFormat, text: Seq<char>) -> Seq<char> {
    match format {
        ServiceFormat::PlainText => trimmed(text),
        ServiceFormat::JsonOrigin => match json_origin(text) {
            Some(s) => s,
            None => Seq::empty(),
        },
    }
}

/// A candidate is taken as an address when it is non-empty and holds at
/// least one ASCII digit.
pub open spec fn address_acceptable(s: Seq<char>) -> bool {
    s.len() > 0 && has_ascii_digit(s)
}

/// Extract the address a discovery service answered with.
///
/// A JSON response that does not parse is [`IpTextError::MalformedJson`].
/// Otherwise the candidate is [`extracted`], and it is returned exactly
/// when [`address_acceptable`] holds of it, else the answer is
/// [`IpTextError::NotAnAddress`].
pub fn extract_address(format: ServiceFormat, text: &str) -> (r: Result<String, IpTextError>)
    ensures
        (r matches Err(IpTextError::MalformedJson)) <==> (format is JsonOrigin
            && !json_well_formed(text@)),
        r matches Ok(ip) ==> ip@ == extracted(format, text@),
        (r is Ok) <==> ((format is PlainText || json_well_formed(text@)) && address_acceptable(
            extracted(format, text@),
        )),
        (r matches Err(IpTextError::NotAnAddress)) <==> ((format is PlainText
            || json_well_formed(text@)) && !address_acceptable(extracted(format, text@))),
{
    let candidate: String = match format {
        ServiceFormat::PlainText => trim_line(text).to_string(),
        ServiceFormat::JsonOrigin => match parse_origin(text) {
            Err(_) => {
                return Err(IpTextError::MalformedJson);
            },
            Ok(None) => {
                proof {
                    reveal_strlit("");
                }
                "".to_string()
            },
            Ok(Some(s)) => s,
        },
    };
    if contains_ascii_digit(candidate.as_str()) {
        Ok(candidate)
    } else {
        Err(IpTextError::NotAnAddress)
    }
}

} // verus!
