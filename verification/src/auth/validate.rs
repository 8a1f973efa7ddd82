use vstd::prelude::*;
use vstd::utf8::encode_utf8;

use crate::auth::LoginData;
use crate::text::contains_char;
use crate::types::Status;

verus! {

/// The pattern that a valid e-mail address matches.
pub const EMAIL_REG_RULE: &'static str = r"^[a-zA-Z0-9_-]+@[a-zA-Z0-9_-]+(\.[a-zA-Z0-9_-]+)+$";

/// The pattern that a valid mobile phone number matches.
pub const PHONE_REG_RULE: &'static str = r"^1(3\d|4[5-9]|5[0-35-9]|6[567]|7[0-8]|8\d|9[0-35-9])\d{8}$";

/// Whether `regex::Regex::new` accepts `pattern`.
pub uninterp spec fn regex_valid(pattern: Seq<char>) -> bool;

/// Whether `regex::Regex::captures` finds a match of `pattern` in `haystack`.
pub uninterp spec fn regex_captures(pattern: Seq<char>, haystack: Seq<char>) -> bool;

/// Calls `regex::Regex::new` on `pattern` and reports whether it compiled.
/// Trusted: the result is claimed to be a function of the pattern alone.
#[verifier::external_body]
fn regex_compiles(pattern: &str) -> (r: bool)
    ensures
        r == regex_valid(pattern@),
{
    regex::Regex::new(pattern).is_ok()
}

/// Compiles `pattern` with `regex::Regex::new` and reports whether
/// `regex::Regex::captures` finds a match in `haystack`. Trusted: the result is
/// claimed to be a function of the pattern and the haystack alone; what the
/// regex engine matches is not stated, only named.
#[verifier::external_body]
fn regex_finds(pattern: &str, haystack: &str) -> (r: bool)
    requires
        regex_valid(pattern@),
    ensures
        r == regex_captures(pattern@, haystack@),
{
    match regex::Regex::new(pattern) {
        Ok(re) => re.captures(haystack).is_some(),
        Err(_) => false,
    }
}

/// Whether an e-mail address is well formed.
pub open spec fn email_ok(target: Seq<char>) -> bool {
    regex_captures(EMAIL_REG_RULE@, target)
}

/// Whether a phone number is well formed.
pub open spec fn phone_ok(target: Seq<char>) -> bool {
    regex_captures(PHONE_REG_RULE@, target)
}

/// Whether a user name has an acceptable length: 1 to 255 bytes in UTF-8.
pub open spec fn name_ok(target: Seq<char>) -> bool {
    0 < encode_utf8(target).len() <= 255
}

/// The validators of the user data that forms carry. It holds the two patterns,
/// both of which compile.
pub struct ValidateData {
    email_reg: String,
    phone_reg: String,
}

impl ValidateData {
    #[verifier::type_invariant]
    spec fn inv(self) -> bool {
        &&& self.email_reg@ == EMAIL_REG_RULE@
        &&& self.phone_reg@ == PHONE_REG_RULE@
        &&& regex_valid(EMAIL_REG_RULE@)
        &&& regex_valid(PHONE_REG_RULE@)
    }

    /// Compiles both patterns; fails with an internal server error when either
    /// does not compile.
    pub fn new() -> (r: Result<Self, Status>)
        ensures
            r is Ok <==> regex_valid(EMAIL_REG_RULE@) && regex_valid(PHONE_REG_RULE@),
            r is Err ==> r->Err_0 == Status::InternalServerError,
    {
        if !regex_compiles(EMAIL_REG_RULE) {
            return Err(Status::InternalServerError);
        }
        if !regex_compiles(PHONE_REG_RULE) {
            return Err(Status::InternalServerError);
        }
        Ok(ValidateData {
            email_reg: String::from_str(EMAIL_REG_RULE),
            phone_reg: String::from_str(PHONE_REG_RULE),
        })
    }

    /// Whether one of the strings is empty.
    pub fn is_empty(&self, target: Vec<&str>) -> (r: bool)
        ensures
            r == exists|i: int| 0 <= i < target@.len() && (#[trigger] target@[i])@.len() == 0,
    {
        let n = target.len();
        let mut i: usize = 0;
        while i < n
            invariant
                n == target@.len(),
                i <= n,
                forall|j: int| 0 <= j < i ==> (#[trigger] target@[j])@.len() != 0,
            decreases n - i,
        {
            if target[i].is_empty() {
                return true;
            }
            i = i + 1;
        }
        false
    }

    /// Whether `target` is a well-formed e-mail address.
    pub fn validate_email(&self, target: &str) -> (r: bool)
        ensures
            r == email_ok(target@),
    {
        proof {
            use_type_invariant(self);
        }
        regex_finds(self.email_reg.as_str(), target)
    }

    /// Whether `target` is a well-formed phone number.
    pub fn validate_phone(&self, target: &str) -> (r: bool)
        ensures
            r == phone_ok(target@),
    {
        proof {
            use_type_invariant(self);
        }
        regex_finds(self.phone_reg.as_str(), target)
    }

    /// Whether `target` is an acceptable user name: 1 to 255 bytes long.
    pub fn validate_name(&self, target: &str) -> (r: bool)
        ensures
            r == name_ok(target@),
    {
        let len = target.as_bytes().len();
        if len <= 0 || len > 255 {
            return false;
        }
        return true;
    }

    /// Whether the e-mail address, the phone number and the name are all valid.
    pub fn validate_email_phone_name(&self, email: &str, phone: &str, name: &str) -> (r: bool)
        ensures
            r == (email_ok(email@) && phone_ok(phone@) && name_ok(name@)),
    {
        return self.validate_email(email) && self.validate_phone(phone) && self.validate_name(
            name,
        );
    }
}

/// Whether login data passes validation: both fields are present, and the login
/// key is a valid e-mail address when it holds an `@`, a valid phone number
/// otherwise.
pub open spec fn login_data_ok(key: Seq<char>, pwd: Seq<char>) -> bool {
    &&& key.len() != 0
    &&& pwd.len() != 0
    &&& if key.contains('@') {
        email_ok(key)
    } else {
        phone_ok(key)
    }
}

/// Validates login data; on success tells whether the login key is an e-mail
/// address (it holds an `@`) rather than a phone number.
pub fn validate_login_data(form_data: &LoginData, validator: &ValidateData) -> (r: Result<
    bool,
    Status,
>)
    ensures
        r is Ok <==> login_data_ok(form_data.user_login_key@, form_data.pwd@),
        r matches Ok(is_email) ==> is_email == form_data.user_login_key@.contains('@'),
        r is Err ==> r->Err_0 == Status::BadRequest,
{
    let user_login_key = form_data.user_login_key.as_str();
    let pwd = form_data.pwd.as_str();

    if user_login_key.is_empty() || pwd.is_empty() {
        return Err(Status::BadRequest);
    }
    let is_email: bool;
    let is_fail: bool;
    if contains_char(user_login_key, '@') {
        is_email = true;
        is_fail = !validator.validate_email(user_login_key);
    } else {
        is_email = false;
        is_fail = !validator.validate_phone(user_login_key);
    }
    if is_fail {
        return Err(Status::BadRequest);
    }
    Ok(is_email)
}

/// Whether registration data passes validation: name, password, e-mail and
/// phone are present, the e-mail address and the phone number are well formed
/// and the name has an acceptable length. The description may be anything.
pub open spec fn register_data_ok(
    name: Seq<char>,
    pwd: Seq<char>,
    email: Seq<char>,
    phone: Seq<char>,
) -> bool {
    &&& name.len() != 0
    &&& pwd.len() != 0
    &&& email.len() != 0
    &&& phone.len() != 0
    &&& email_ok(email)
    &&& phone_ok(phone)
    &&& name_ok(name)
}

/// Validates registration data given as (name, password, e-mail, phone,
/// description).
pub fn validate_register_data(
    data: (String, String, String, String, String),
    validator: &ValidateData,
) -> (r: Result<(), Status>)
    ensures
        r is Ok <==> register_data_ok(data.0@, data.1@, data.2@, data.3@),
        r is Err ==> r->Err_0 == Status::BadRequest,
{
    let (name, pwd, email, phone, _desc) = data;
    let mut fields: Vec<&str> = Vec::new();
    fields.push(name.as_str());
    fields.push(pwd.as_str());
    fields.push(email.as_str());
    fields.push(phone.as_str());
    let any_empty = validator.is_empty(fields);
    if any_empty || !validator.validate_email_phone_name(
        email.as_str(),
        phone.as_str(),
        name.as_str(),
    ) {
        return Err(Status::BadRequest);
    }
    proof {
        assert(fields@[0]@ == name@);
        assert(fields@[1]@ == pwd@);
        assert(fields@[2]@ == email@);
        assert(fields@[3]@ == phone@);
    }
    Ok(())
}

} // verus!
