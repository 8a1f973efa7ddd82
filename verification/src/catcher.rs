use vstd::prelude::*;

use crate::types::{FailureData, RtCode, RtData};

verus! {

/// The body answered to a request with bad parameters (HTTP 400).
pub fn bad_request_catcher() -> (r: Option<RtData<FailureData>>)
    ensures
        r is Some,
        !r->0.success,
        r->0.rt == RtCode::Num(-3i32),
        r->0.msg@ == "get wrong params"@,
        r->0.consistent(),
{
    Some(
        RtData {
            success: false,
            rt: RtCode::Num(-3),
            msg: String::from_str("get wrong params"),
            data: FailureData(()),
        },
    )
}

/// The body answered when the server fails (HTTP 500).
pub fn error_catcher() -> (r: Option<RtData<FailureData>>)
    ensures
        r is Some,
        !r->0.success,
        r->0.rt == RtCode::Num(-2i32),
        r->0.msg@ == "server internal error"@,
        r->0.consistent(),
{
    Some(
        RtData {
            success: false,
            rt: RtCode::Num(-2),
            msg: String::from_str("server internal error"),
            data: FailureData(()),
        },
    )
}

} // verus!
