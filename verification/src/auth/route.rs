use vstd::prelude::*;

use crate::auth::db_service::{
    exist_sql, get_user_msg_sql, pwd_hash, try_register_user_sql, user_msg_sql, RegisterRtType,
};
use crate::auth::validate::{
    login_data_ok, register_data_ok, validate_login_data, validate_register_data, ValidateData,
};
use crate::auth::{LoginData, RegisterData, RtDataType, UserExisted};
use crate::db::DbError;
use crate::types::rt_type::Rt;
use crate::types::{LoginSuccessData, RtCode, RtData, Status};

verus! {

/// The first half of a login: validates the form and gives the query that
/// looks the user up.
pub fn login_query(login_data: &LoginData, validator: &ValidateData) -> (r: Result<String, Status>)
    ensures
        r is Ok <==> login_data_ok(login_data.user_login_key@, login_data.pwd@),
        r matches Ok(sql) ==> sql@ == user_msg_sql(
            login_data.user_login_key@,
            pwd_hash(login_data.pwd@),
            login_data.user_login_key@.contains('@'),
        ),
        r is Err ==> r->Err_0 == Status::BadRequest,
{
    let is_email = validate_login_data(login_data, validator)?;
    Ok(get_user_msg_sql(login_data.user_login_key.as_str(), login_data.pwd.as_str(), is_email))
}

/// The second half of a login: the response to the lookup. A user found logs
/// in; no user is a bad request; a database error is a server error. (Any
/// other failure of the lookup is outside what the login handles.)
pub fn login_response(result: Result<LoginSuccessData, DbError>) -> (r: Result<
    RtData<LoginSuccessData>,
    Status,
>)
    requires
        result != Err::<LoginSuccessData, DbError>(DbError::Other),
    ensures
        result matches Ok(d) ==> (r matches Ok(b) && {
            &&& b.success
            &&& b.rt == RtCode::Kind(Rt::Success)
            &&& b.msg@ == "login success"@
            &&& b.data == d
        }),
        result == Err::<LoginSuccessData, DbError>(DbError::RowNotFound) ==> r == Err::<
            RtData<LoginSuccessData>,
            Status,
        >(Status::BadRequest),
        result == Err::<LoginSuccessData, DbError>(DbError::Database) ==> r == Err::<
            RtData<LoginSuccessData>,
            Status,
        >(Status::InternalServerError),
        r matches Ok(b) ==> b.consistent(),
{
    match result {
        Ok(user_msg) => Ok(
            RtData {
                success: true,
                msg: String::from_str("login success"),
                rt: RtCode::Kind(Rt::Success),
                data: user_msg,
            },
        ),
        Err(DbError::RowNotFound) => Err(Status::BadRequest),
        Err(_) => Err(Status::InternalServerError),
    }
}

/// The first half of a registration: validates the form and gives the query
/// that looks for a user with the same e-mail address or phone.
pub fn register_query(register_data: &RegisterData, validator: &ValidateData) -> (r: Result<
    String,
    Status,
>)
    ensures
        r is Ok <==> register_data_ok(
            register_data.name@,
            register_data.pwd@,
            register_data.email@,
            register_data.phone@,
        ),
        r matches Ok(sql) ==> sql@ == exist_sql(register_data.email@, register_data.phone@),
        r is Err ==> r->Err_0 == Status::BadRequest,
{
    let fields = (
        register_data.name.clone(),
        register_data.pwd.clone(),
        register_data.email.clone(),
        register_data.phone.clone(),
        register_data.desc.clone(),
    );
    validate_register_data(fields, validator)?;
    Ok(try_register_user_sql(register_data.email.as_str(), register_data.phone.as_str()))
}

/// The last step of a registration: the response to its outcome.
pub fn register_response(res: Result<RegisterRtType, DbError>) -> (r: Result<
    RtData<RtDataType>,
    Status,
>)
    ensures
        res matches Ok(RegisterRtType::Exist(m)) ==> (r matches Ok(b) && {
            &&& !b.success
            &&& b.rt == RtCode::Kind(Rt::Fail)
            &&& b.msg == m
            &&& b.data == RtDataType::Exist(UserExisted(()))
        }),
        res matches Ok(RegisterRtType::Success(d)) ==> (r matches Ok(b) && {
            &&& b.success
            &&& b.rt == RtCode::Kind(Rt::Success)
            &&& b.msg@ == "registry success !"@
            &&& b.data == RtDataType::Success(d)
        }),
        res is Err ==> r == Err::<RtData<RtDataType>, Status>(Status::InternalServerError),
        r matches Ok(b) ==> b.consistent(),
{
    match res {
        Ok(rt_type) => {
            let mut success = true;
            let mut rt = RtCode::Kind(Rt::Success);
            let mut msg = String::from_str("registry success !");
            let data = match rt_type {
                RegisterRtType::Exist(r_msg) => {
                    success = false;
                    rt = RtCode::Kind(Rt::Fail);
                    msg = r_msg;
                    RtDataType::Exist(UserExisted(()))
                },
                RegisterRtType::Success(login_success_data) => RtDataType::Success(
                    login_success_data,
                ),
            };
            Ok(RtData { success, rt, msg, data })
        },
        Err(_) => Err(Status::InternalServerError),
    }
}

} // verus!
