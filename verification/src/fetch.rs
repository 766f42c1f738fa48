//! The decision rule for a fetched response, and the fixed client identity
//! sent with every archive request.

use vstd::prelude::*;
use vstd::string::StringExecFns;
use crate::package::PackageError;

verus! {

/// An HTTP status accepts the archive exactly when it lies in the success
/// range, 200 through 299.
pub open spec fn spec_is_success(status: u16) -> bool {
    200 <= status < 300
}

/// Decides the outcome of a fetch from the response's status: a success
/// status accepts the response, and any other status is a network error
/// carrying exactly that status.
pub fn fetch_outcome(status: u16) -> (r: Result<(), PackageError>)
    ensures
        r is Ok <==> spec_is_success(status),
        r matches Err(e) ==> e == (PackageError::NetworkError { status }),
{
    if 200 <= status && status < 300 {
        Ok(())
    } else {
        Err(PackageError::NetworkError { status })
    }
}

/// The fixed identifying client header sent with every archive request; it is
/// not reconfigurable per call.
pub fn user_agent() -> (r: String)
    ensures
        r@ == "Better-Ept/1.1 (Powered By Rust && Reqwest)"@,
{
    String::from_str("Better-Ept/1.1 (Powered By Rust && Reqwest)")
}

} // verus!
