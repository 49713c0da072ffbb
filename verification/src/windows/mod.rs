//! The port of a Windows host: the device-control block, the requests that the
//! host performs, and the port's life cycle.

use vstd::prelude::*;
use vstd::string::StrSliceExecFns;
use vstd::string::StringExecFns;

pub mod com;
pub mod dcb;
pub mod host;
pub mod laws;
pub mod machine;

verus! {

/// Whether a port name starts with the prefix of the device namespace,
/// `\\.\`.
pub open spec fn has_device_prefix(port: Seq<char>) -> bool {
    &&& port.len() >= 4
    &&& port[0] == '\\'
    &&& port[1] == '\\'
    &&& port[2] == '.'
    &&& port[3] == '\\'
}

/// The path of a port in the device namespace: the name itself where it
/// starts with `\\.\` already, else the name with `\\.\` put before it.
pub open spec fn device_path(port: Seq<char>) -> Seq<char> {
    if has_device_prefix(port) {
        port
    } else {
        seq!['\\', '\\', '.', '\\'] + port
    }
}

/// Gives the path under which the operating system opens a port: names such
/// as `COM12` get the device-namespace prefix `\\.\`, names that carry it
/// stay as they are.
pub fn prefix_port(port: &str) -> (r: String)
    ensures
        r@ == device_path(port@),
{
    let len = port.unicode_len();
    let prefixed = len >= 4 && port.get_char(0) == '\\' && port.get_char(1) == '\\'
        && port.get_char(2) == '.' && port.get_char(3) == '\\';
    if prefixed {
        port.to_owned()
    } else {
        proof {
            reveal_strlit("\\\\.\\");
        }
        let prefix = String::from_str("\\\\.\\");
        assert(prefix@ =~= seq!['\\', '\\', '.', '\\']);
        prefix.concat(port)
    }
}

} // verus!
