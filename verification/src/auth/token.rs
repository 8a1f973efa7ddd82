use vstd::prelude::*;

use crate::auth::UserToken;
use crate::clock::{is_clock_reading, read_clock};
use crate::config::MyConfig;

verus! {

/// The expiry time written into a token issued at `now`: the configured
/// lifetime after `now`.
pub open spec fn issued_exp(lifetime: u64, now: u64) -> int {
    lifetime + now
}

/// The header name and the claims of the token issued to `user_id` at time
/// `now`.
pub fn set_token_at(config: &MyConfig, user_id: &str, now: u64) -> (r: (String, UserToken))
    requires
        issued_exp(config.exp, now) <= u64::MAX,
    ensures
        r.0@ == config.token_field@,
        r.1.id@ == user_id@,
        r.1.exp == issued_exp(config.exp, now),
{
    let exp = config.exp + now;
    (config.token_field.clone(), UserToken { id: String::from_str(user_id), exp })
}

/// Whether `p` is the token issued to `user_id` at time `now`: it goes in the
/// configured header, names the user, and expires the configured lifetime
/// after `now`.
pub open spec fn issued_at(config: MyConfig, user_id: Seq<char>, p: (String, UserToken), now: u64) -> bool {
    &&& p.0@ == config.token_field@
    &&& p.1.id@ == user_id
    &&& p.1.exp == config.exp + now
}

/// The header name and the claims of the token issued to `user_id` now. `None`
/// when the expiry time does not fit in a `u64` (where adding the lifetime to
/// the clock would overflow).
pub fn set_token(config: &MyConfig, user_id: &str) -> (r: Option<(String, UserToken)>)
    ensures
        r matches Some(p) ==> {
            &&& p.0@ == config.token_field@
            &&& p.1.id@ == user_id@
            &&& exists|now: u64| p.1.exp == issued_exp(config.exp, now)
        },
        r is None ==> config.exp > 0,
        exists|now: u64|
            #![trigger is_clock_reading(now)]
            is_clock_reading(now) && if config.exp + now <= u64::MAX {
                r matches Some(p) && issued_at(*config, user_id@, p, now)
            } else {
                r is None
            },
{
    let now = read_clock();
    if now > u64::MAX - config.exp {
        None
    } else {
        let r = set_token_at(config, user_id, now);
        assert(issued_at(*config, user_id@, r, now));
        Some(r)
    }
}

} // verus!
