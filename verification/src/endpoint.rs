//! The remote endpoint of the heartbeat, read from its configured text.

use vstd::prelude::*;
use core::str::FromStr;

verus! {

/// An IPv4 address and a port, as plain values.
#[derive(Clone, Copy, Debug, PartialEq, Eq)]
pub struct Endpoint {
    pub addr: [u8; 4],
    pub port: u16,
}

/// What the network stack's endpoint parser makes of a text: the endpoint it
/// reads, or `None` where it rejects the text. Its grammar is the stack's own
/// and is not restated here.
pub uninterp spec fn endpoint_of_text(text: Seq<char>) -> Option<Endpoint>;

/// Calls `IpEndpoint::from_str` of embassy-net (the parser of smoltcp behind
/// it) and hands the result back as plain values: the four octets of the
/// address and the port on success, `None` on the parser's error.
///
/// Trusted: the parser reads nothing but the text, so the same text always
/// gives the same result, and it returns on every text.
#[verifier::external_body]
pub(crate) fn parse_ip_endpoint(text: &str) -> (r: Option<Endpoint>)
    ensures
        r == endpoint_of_text(text@),
{
    match embassy_net::IpEndpoint::from_str(text) {
        Ok(e) => match e.addr {
            embassy_net::IpAddress::Ipv4(a) => Some(Endpoint { addr: a.octets(), port: e.port }),
        },
        Err(_) => None,
    }
}

} // verus!
