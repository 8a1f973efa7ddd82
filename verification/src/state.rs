use vstd::prelude::*;

use crate::auth::UserToken;
use crate::auth::validate::{ValidateData, regex_valid, EMAIL_REG_RULE, PHONE_REG_RULE};
use crate::clock::{is_clock_reading, read_clock};
use crate::ids::{is_drawn_uuid_text, is_v4_uuid_text, new_uuid};
use crate::types::Status;

verus! {

/// The token that the server starts with: a fresh random id, expiring now.
pub fn get_default_user_token() -> (r: UserToken)
    ensures
        is_v4_uuid_text(r.id@),
        is_drawn_uuid_text(r.id@),
        is_clock_reading(r.exp),
{
    UserToken { id: new_uuid(), exp: read_clock() }
}

/// The validators that the server shares between requests.
pub fn init_validate_instace() -> (r: Result<ValidateData, Status>)
    ensures
        r is Ok <==> regex_valid(EMAIL_REG_RULE@) && regex_valid(PHONE_REG_RULE@),
        r is Err ==> r->Err_0 == Status::InternalServerError,
{
    let instance = ValidateData::new()?;
    Ok(instance)
}

} // verus!
