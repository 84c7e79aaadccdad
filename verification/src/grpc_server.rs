//! The remote-procedure verification endpoint, modelled as plain values: the
//! service acknowledges every request.

use vstd::prelude::*;

verus! {

/// The verification service exposed over the remote-procedure transport.
#[derive(Default)]
pub struct GrpcService;

/// The reply message of the verification call, as plain values.
#[derive(Debug)]
pub struct VerifyJwtResponse {
    pub success: bool,
    pub message: String,
}

impl GrpcService {
    /// The stub verification call: every request is acknowledged as a
    /// success.
    pub fn verify_jwt(&self) -> (r: VerifyJwtResponse)
        ensures
            r.success,
            r.message@ == "Success"@,
    {
        VerifyJwtResponse { success: true, message: "Success".to_owned() }
    }
}

} // verus!
