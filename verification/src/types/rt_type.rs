use vstd::prelude::*;

verus! {

/// The kind of outcome that a response reports.
#[derive(Debug, PartialEq, Eq, Clone, Copy, Structural)]
pub enum Rt {
    AuthFail,
    AuthSuccess,
    Success,
    Fail,
    Error,
}

} // verus!
