//! The network addresses the service derives from configured hosts and
//! ports.

use vstd::prelude::*;
use vstd::string::StringExecFns;

verus! {

/// `a` followed by `b`.
fn joined(a: &str, b: &str) -> (res: String)
    ensures
        res@ == a@ + b@,
{
    let mut s = String::from_str(a);
    s.append(b);
    s
}

/// The address `ip:port` of a configured peer.
pub fn peer_address(ip: &str, port: &str) -> (res: String)
    ensures
        res@ == ip@ + ":"@ + port@,
{
    let mut s = joined(ip, ":");
    s.append(port);
    s
}

/// The address the network listens on: every interface, at `port`.
pub fn listen_address(port: &str) -> (res: String)
    ensures
        res@ == "0.0.0.0:"@ + port@,
{
    joined("0.0.0.0:", port)
}

/// The address of the local gRPC service at `port`.
pub fn grpc_address(port: &str) -> (res: String)
    ensures
        res@ == "127.0.0.1:"@ + port@,
{
    joined("127.0.0.1:", port)
}

/// The URL of a local module's message handler listening at `port`.
pub fn handler_address(port: &str) -> (res: String)
    ensures
        res@ == "http://127.0.0.1:"@ + port@,
{
    joined("http://127.0.0.1:", port)
}

/// The URL of a module's message handler at `hostname:port`.
pub fn module_address(hostname: &str, port: &str) -> (res: String)
    ensures
        res@ == "http://"@ + hostname@ + ":"@ + port@,
{
    let mut s = joined("http://", hostname);
    s.append(":");
    s.append(port);
    s
}

} // verus!
