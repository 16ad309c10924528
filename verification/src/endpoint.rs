//! The addresses of the engine's control endpoint on the local machine.

use vstd::prelude::*;
use crate::text::decimal;
use crate::text::decimal_text;

verus! {

/// The address at which a connection to `host` on `port` is attempted to see whether the engine is up.
pub open spec fn probe_address(host: Seq<char>, port: u16) -> Seq<char> {
    "ws://"@ + host + ":"@ + decimal(port as nat)
}

/// The address of the control channel of the engine that listens on `port`.
pub open spec fn control_address(port: u16) -> Seq<char> {
    "ws://localhost:"@ + decimal(port as nat) + "/browser"@
}

/// The address at which a connection to `host` on `port` is attempted to see whether the engine is up.
pub fn healthcheck_address(host: &str, port: u16) -> (address: String)
    ensures
        address@ == probe_address(host@, port),
{
    let mut address = String::from_str("ws://");
    address.append(host);
    address.append(":");
    let number = decimal_text(port);
    address.append(number.as_str());
    address
}

/// The address of the control channel of the engine that listens on `port`.
pub fn control_endpoint_address(port: u16) -> (address: String)
    ensures
        address@ == control_address(port),
{
    let mut address = String::from_str("ws://localhost:");
    let number = decimal_text(port);
    address.append(number.as_str());
    address.append("/browser");
    address
}

} // verus!
