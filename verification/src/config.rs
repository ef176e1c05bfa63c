//! Where the service listens.

use vstd::prelude::*;
use vstd::string::*;

verus! {

/// The address that the service binds to when it is deployed as
/// `rust_env`.
pub open spec fn addr_text(rust_env: Seq<char>) -> Seq<char> {
    if rust_env == "production"@ {
        "0.0.0:8080"@
    } else {
        "127.0.0.1:8080"@
    }
}

/// The address that the service binds to: every interface in production,
/// the loopback interface anywhere else, and where no deployment is
/// named, which is the deployment with the empty name.
pub fn addr(rust_env: &str) -> (address: &'static str)
    ensures
        address@ == addr_text(rust_env@),
{
    let named = String::from_str(rust_env);
    let production = String::from_str("production");
    if named == production {
        "0.0.0:8080"
    } else {
        "127.0.0.1:8080"
    }
}

} // verus!
