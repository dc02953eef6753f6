//! Resolution of the initiator's target: a scheme-qualified URI is turned
//! into a host and port, the port defaulting when the URI names none.

use vstd::prelude::*;

verus! {

/// The port used when a target URI names none.
pub const DEFAULT_PORT: u16 = 8080;

/// A resolved endpoint: a host and a port.
#[derive(Debug)]
pub struct Endpoint {
    pub host: String,
    pub port: u16,
}

/// Why a target URI could not be resolved.
#[derive(PartialEq, Eq, Structural, Clone, Copy, Debug)]
pub enum TargetError {
    /// The text is not a well-formed URI.
    InvalidUri,
    /// The URI is well-formed but names no host.
    MissingHost,
}

/// Whether the URI text parses as a well-formed absolute URI.
pub uninterp spec fn uri_well_formed(uri: Seq<char>) -> bool;

/// The host component of a well-formed URI, if it has one.
pub uninterp spec fn uri_host(uri: Seq<char>) -> Option<Seq<char>>;

/// The explicit port of a well-formed URI, if it names one. A port equal to
/// the scheme's own well-known default counts as not named.
pub uninterp spec fn uri_port(uri: Seq<char>) -> Option<u16>;

/// Relies on url::Url::parse for well-formedness of the URI, and on
/// Url::host_str and Url::port for the host and the explicit port of the
/// parsed URI; each result depends on the URI text alone.
#[verifier::external_body]
fn parse_uri(uri: &str) -> (r: Option<(Option<String>, Option<u16>)>)
    ensures
        (r is Some) == uri_well_formed(uri@),
        r matches Some(parts) ==> {
            &&& (parts.0 is Some) == (uri_host(uri@) is Some)
            &&& (parts.0 matches Some(h) ==> uri_host(uri@) == Some(h@))
            &&& parts.1 == uri_port(uri@)
        },
{
    match url::Url::parse(uri) {
        Ok(u) => Some((u.host_str().map(|h| h.to_string()), u.port())),
        Err(_) => None,
    }
}

/// The port a resolved target uses: the explicit one, else the default.
pub open spec fn effective_port(explicit: Option<u16>) -> u16 {
    match explicit {
        Some(p) => p,
        None => DEFAULT_PORT,
    }
}

/// Resolve a target URI to an endpoint.
///
/// Resolution succeeds exactly on well-formed URIs that name a host; the
/// port is the URI's explicit one, or [`DEFAULT_PORT`] when omitted.
/// Malformed text is rejected as [`TargetError::InvalidUri`], a host-less
/// URI as [`TargetError::MissingHost`].
pub fn resolve_target(uri: &str) -> (r: Result<Endpoint, TargetError>)
    ensures
        (r is Ok) <==> (uri_well_formed(uri@) && uri_host(uri@) is Some),
        r matches Ok(ep) ==> {
            &&& uri_host(uri@) == Some(ep.host@)
            &&& ep.port == effective_port(uri_port(uri@))
        },
        (r matches Err(TargetError::InvalidUri)) <==> !uri_well_formed(uri@),
        (r matches Err(TargetError::MissingHost)) <==> (uri_well_formed(uri@) && uri_host(
            uri@,
        ) is None),
{
    match parse_uri(uri) {
        None => Err(TargetError::InvalidUri),
        Some((host_opt, port_opt)) => match host_opt {
            None => Err(TargetError::MissingHost),
            Some(host) => {
                let port: u16 = match port_opt {
                    Some(p) => p,
                    None => DEFAULT_PORT,
                };
                Ok(Endpoint { host, port })
            },
        },
    }
}

} // verus!
