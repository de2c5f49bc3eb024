//! The lines the server emits: one request-log line per completed
//! request, and the startup announcement naming the served directory
//! and the listening URL.

use vstd::prelude::*;
use vstd::string::StringExecFns;
use crate::text::dec_digits;
use crate::text::u16_to_decimal;

verus! {

/// The text of a request-log line: the method token, the URI path and
/// the response status, as `<METHOD> <PATH> - <STATUS>`.
pub open spec fn log_line(method: Seq<char>, path: Seq<char>, status: nat) -> Seq<char> {
    method + seq![' '] + path + seq![' ', '-', ' '] + dec_digits(status)
}

/// Renders the one log line a completed request gets, from the method
/// and path captured before the responder ran and the status it returned.
pub fn request_log_line(method: &str, path: &str, status: u16) -> (r: String)
    ensures
        r@ == log_line(method@, path@, status as nat),
{
    let mut r = String::from_str(method);
    r.append(" ");
    r.append(path);
    r.append(" - ");
    let digits = u16_to_decimal(status);
    r.append(digits.as_str());
    proof {
        reveal_strlit(" ");
        reveal_strlit(" - ");
        assert(" "@ =~= seq![' ']);
        assert(" - "@ =~= seq![' ', '-', ' ']);
        assert(r@ =~= log_line(method@, path@, status as nat));
    }
    r
}

/// The text of the startup announcement: the served directory and a URL
/// built from the IPv4 bind address and the port.
pub open spec fn announce_line(root_dir: Seq<char>, port: nat) -> Seq<char> {
    "serving directory "@ + root_dir + " at http://0.0.0.0:"@ + dec_digits(port) + "/"@
}

/// Renders the announcement emitted once the listener is bound.
pub fn startup_announcement(root_dir: &str, port: u16) -> (r: String)
    ensures
        r@ == announce_line(root_dir@, port as nat),
{
    let mut r = String::from_str("serving directory ");
    r.append(root_dir);
    r.append(" at http://0.0.0.0:");
    let digits = u16_to_decimal(port);
    r.append(digits.as_str());
    r.append("/");
    proof {
        assert(r@ =~= announce_line(root_dir@, port as nat));
    }
    r
}

} // verus!
