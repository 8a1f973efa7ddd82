use vstd::prelude::*;

pub mod db_service;
pub mod fairing;
pub mod route;
pub mod token;
pub mod validate;

use crate::types::{LoginSuccessData, RtData};
use vstd::string::StringExecFns;

verus! {

/// The claims of a login token: the user's id and the time (in seconds since
/// the Unix epoch) at which the token expires.
#[derive(Debug, PartialEq, Eq, Clone)]
pub struct UserToken {
    pub id: String,
    pub exp: u64,
}

/// What the token check of a request found.
#[derive(Debug, PartialEq, Eq, Clone, Copy, Structural)]
pub struct AuthMsg {
    pub is_valid_token: bool,
}

/// The login form: a login key (e-mail address or phone number) and a password.
#[derive(Debug, Eq, PartialEq, Clone)]
pub struct LoginData {
    pub user_login_key: String,
    pub pwd: String,
}

impl LoginData {
    /// The login key and the password.
    pub fn into(self) -> (r: (String, String))
        ensures
            r == (self.user_login_key, self.pwd),
    {
        (self.user_login_key, self.pwd)
    }
}

/// The registration form.
#[derive(Debug, PartialEq, Eq, Clone)]
pub struct RegisterData {
    pub name: String,
    pub pwd: String,
    pub email: String,
    pub phone: String,
    pub desc: String,
}

impl RegisterData {
    /// The name, password, e-mail, phone and description, in that order.
    pub fn into(self) -> (r: (String, String, String, String, String))
        ensures
            r == (self.name, self.pwd, self.email, self.phone, self.desc),
    {
        (self.name, self.pwd, self.email, self.phone, self.desc)
    }
}

/// The payload of a registration refused because the user exists.
#[derive(Debug, PartialEq, Eq, Clone, Copy)]
pub struct UserExisted(pub ());

/// The payload of a registration response.
#[derive(Debug, PartialEq, Eq, Clone)]
pub enum RtDataType {
    Exist(UserExisted),
    Success(LoginSuccessData),
}

impl RtData<LoginSuccessData> {
    /// Replaces the user id in the payload by `-`, leaving the rest as it is.
    pub fn hide_user_id(&mut self)
        ensures
            final(self).data.user_id@ == "-"@,
            final(self).data.name == old(self).data.name,
            final(self).data.desc == old(self).data.desc,
            final(self).success == old(self).success,
            final(self).rt == old(self).rt,
            final(self).msg == old(self).msg,
    {
        self.data.user_id = String::from_str("-");
    }

    /// What a login response is made of: the body, with the user id hidden,
    /// and the user id, to whom the response's token is issued.
    pub fn into_response_parts(self) -> (r: (RtData<LoginSuccessData>, String))
        ensures
            r.1 == self.data.user_id,
            r.0.data.user_id@ == "-"@,
            r.0.data.name == self.data.name,
            r.0.data.desc == self.data.desc,
            r.0.success == self.success,
            r.0.rt == self.rt,
            r.0.msg == self.msg,
    {
        let mut body = self;
        let user_id = body.data.user_id.clone();
        body.hide_user_id();
        (body, user_id)
    }
}

impl RtData<RtDataType> {
    /// The user to whom a registration response issues a token: the new user
    /// on success, nobody when the user existed.
    pub fn token_user_id(&self) -> (r: Option<String>)
        ensures
            self.data matches RtDataType::Success(d) ==> r == Some(d.user_id),
            self.data is Exist ==> r is None,
    {
        match &self.data {
            RtDataType::Success(login_data) => Some(login_data.user_id.clone()),
            RtDataType::Exist(_) => None,
        }
    }
}

} // verus!
