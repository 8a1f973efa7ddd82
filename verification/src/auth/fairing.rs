use vstd::prelude::*;

use crate::auth::token::issued_exp;
use crate::auth::token::issued_at;
use crate::auth::UserToken;
use crate::clock::{is_clock_reading, read_clock};
use crate::config::MyConfig;
use crate::types::{status_code, FailureData, RtCode, RtData, Status};

verus! {

/// Whether a request's token is valid at time `now`: the request carries a
/// token that decodes, with expiry time `exp`, and `now` is before `exp`.
pub open spec fn token_valid_at(decoded_exp: Option<u64>, now: u64) -> bool {
    decoded_exp matches Some(exp) && now < exp
}

/// The token check at a given time. `decoded_exp` is the expiry time of the
/// request's token, `None` when the request has no token or it does not decode.
pub fn is_token_valid_at(decoded_exp: Option<u64>, now: u64) -> (r: bool)
    ensures
        r == token_valid_at(decoded_exp, now),
{
    match decoded_exp {
        Some(exp) => now < exp,
        None => false,
    }
}

/// The token check of a request, now.
pub fn request_token_valid(decoded_exp: Option<u64>) -> (r: bool)
    ensures
        r ==> exists|now: u64| token_valid_at(decoded_exp, now),
        decoded_exp is None ==> !r,
        exists|now: u64|
            #![trigger is_clock_reading(now)]
            is_clock_reading(now) && r == token_valid_at(decoded_exp, now),
{
    let now = read_clock();
    let r = is_token_valid_at(decoded_exp, now);
    assert(is_clock_reading(now) && r == token_valid_at(decoded_exp, now));
    r
}

/// The statuses whose responses are never replaced for want of a login.
pub open spec fn excepted(code: u16) -> bool {
    code == status_code(Status::NotFound) || code == status_code(Status::InternalServerError)
        || code == status_code(Status::BadRequest)
}

/// Whether a response status is one of the excepted ones.
pub fn is_excepted(code: u16) -> (r: bool)
    ensures
        r == excepted(code),
{
    code == Status::NotFound.code() || code == Status::InternalServerError.code() || code
        == Status::BadRequest.code()
}

/// What replaces a response when the request had no valid token: its status
/// and its body. `None` leaves the response as it is: when the token was valid,
/// or when the status is one of the excepted ones.
pub fn response_override(is_valid_token: bool, status: u16) -> (r: Option<
    (Status, RtData<FailureData>),
>)
    ensures
        r is Some <==> !is_valid_token && !excepted(status),
        r matches Some(p) ==> {
            &&& p.0 == Status::NonAuthoritativeInformation
            &&& !p.1.success
            &&& p.1.rt == RtCode::Num(-1i32)
            &&& p.1.msg@ == "user not login or expired token !"@
            &&& p.1.consistent()
        },
{
    if !is_valid_token && !is_excepted(status) {
        Some(
            (
                Status::NonAuthoritativeInformation,
                RtData {
                    success: false,
                    rt: RtCode::Num(-1),
                    data: FailureData(()),
                    msg: String::from_str("user not login or expired token !"),
                },
            ),
        )
    } else {
        None
    }
}

/// A token issued at `now` passes the token check at every time from `now` up
/// to, not including, its expiry time, and fails it from then on.
pub proof fn lemma_issued_token_lifetime(lifetime: u64, now: u64, t: u64)
    requires
        issued_exp(lifetime, now) <= u64::MAX,
    ensures
        now <= t < issued_exp(lifetime, now) ==> token_valid_at(
            Some(issued_exp(lifetime, now) as u64),
            t,
        ),
        t >= issued_exp(lifetime, now) ==> !token_valid_at(
            Some(issued_exp(lifetime, now) as u64),
            t,
        ),
{
}

/// The token issued at login passes the token check at the time it is issued,
/// and at every later time before it expires, when the configured lifetime is
/// positive; from its expiry on it fails the check.
pub proof fn lemma_login_token_accepted(
    config: MyConfig,
    user_id: Seq<char>,
    p: (String, UserToken),
    now: u64,
    t: u64,
)
    requires
        issued_at(config, user_id, p, now),
    ensures
        config.exp > 0 ==> token_valid_at(Some(p.1.exp), now),
        now <= t < p.1.exp ==> token_valid_at(Some(p.1.exp), t),
        t >= now + config.exp ==> !token_valid_at(Some(p.1.exp), t),
{
}

/// A token that passes the check at some time passes it at every earlier time.
pub proof fn lemma_token_valid_earlier(decoded_exp: Option<u64>, t1: u64, t2: u64)
    requires
        t1 <= t2,
        token_valid_at(decoded_exp, t2),
    ensures
        token_valid_at(decoded_exp, t1),
{
}

} // verus!
