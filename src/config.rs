//! Settings of the service process.
use vstd::prelude::*;
use vstd::string::StringExecFns;

verus! {

/// The address the service listens on: port `port` of the loopback
/// interface, or port 8080 when none is set.
pub fn listen_address(port: Option<String>) -> (r: String)
    ensures
        r@ == "127.0.0.1:"@ + match port {
            Some(p) => p@,
            None => "8080"@,
        },
{
    let host = String::from_str("127.0.0.1:");
    match port {
        Some(p) => host.concat(p.as_str()),
        None => host.concat("8080"),
    }
}

} // verus!
