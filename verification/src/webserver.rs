//! Address configuration for the administrative web server.

use vstd::prelude::*;

verus! {

/// Returns the address and port that the administrative web server binds,
/// in `ip:port` form.
pub fn get_adminserver_port() -> (r: String)
    ensures
        r@ == "0.0.0.0:1220"@,
{
    String::from_str("0.0.0.0:1220")
}

} // verus!
