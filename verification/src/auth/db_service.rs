use vstd::prelude::*;
use vstd::string::StringExecFns;

use crate::clock::{is_clock_reading, read_clock};
use crate::db::DbError;
use crate::digest::{md5_digest, md5_hex};
use crate::ids::{is_drawn_uuid_text, is_v4_uuid_text, new_uuid};
use crate::text::{hex_lower, nat_dec, push_u64};
use crate::types::LoginSuccessData;

verus! {

/// The outcome of a registration: the user existed already (with a message),
/// or the new user's data.
#[derive(Debug, PartialEq, Eq, Clone)]
pub enum RegisterRtType {
    Exist(String),
    Success(LoginSuccessData),
}

/// The stored form of a password: its lower-case hexadecimal MD5 digest.
pub open spec fn pwd_hash(pwd: Seq<char>) -> Seq<char> {
    hex_lower(md5_digest(vstd::utf8::encode_utf8(pwd)))
}

/// The query for the user with a login key (an e-mail address when `is_email`,
/// a phone number otherwise) and a password hash.
pub open spec fn user_msg_sql(login_key: Seq<char>, pwd_hash: Seq<char>, is_email: bool) -> Seq<
    char,
> {
    let condition = if is_email {
        "email = '"@ + login_key + "'"@
    } else {
        "phone = "@ + login_key
    };
    "SELECT name, description, id FROM public.user WHERE pwd = '"@ + pwd_hash + "' AND "@
        + condition
}

/// The SQL text that looks a user up by login key and password.
pub fn get_user_msg_sql(login_key: &str, pwd: &str, is_email: bool) -> (sql: String)
    ensures
        sql@ == user_msg_sql(login_key@, pwd_hash(pwd@), is_email),
{
    let hash = md5_hex(pwd);
    let mut sql = String::from_str("SELECT name, description, id FROM public.user WHERE pwd = '");
    sql.append(hash.as_str());
    sql.append("' AND ");
    if is_email {
        sql.append("email = '");
        sql.append(login_key);
        sql.append("'");
    } else {
        sql.append("phone = ");
        sql.append(login_key);
    }
    sql
}

/// The query for a user who already has the e-mail address or the phone number.
pub open spec fn exist_sql(email: Seq<char>, phone: Seq<char>) -> Seq<char> {
    "SELECT * FROM public.user WHERE email = '"@ + email + "' OR phone = "@ + phone + " LIMIT 1"@
}

/// The SQL text that looks for a user with the same e-mail address or phone.
pub fn try_register_user_sql(email: &str, phone: &str) -> (sql: String)
    ensures
        sql@ == exist_sql(email@, phone@),
{
    let mut sql = String::from_str("SELECT * FROM public.user WHERE email = '");
    sql.append(email);
    sql.append("' OR phone = ");
    sql.append(phone);
    sql.append(" LIMIT 1");
    sql
}

/// The message given when the e-mail address or the phone is taken.
pub const EXIST_MSG: &'static str = "email or phone had been registried !";

/// The next step of a registration after the lookup for an existing user.
#[derive(Debug, PartialEq, Eq)]
pub enum RegisterStep {
    /// No such user: insert the new one.
    Register,
    /// The registration ends with this outcome.
    Finish(Result<RegisterRtType, DbError>),
}

/// Decides a registration from the lookup for an existing user: a row found
/// means the user exists; no row means the user is to be inserted; any other
/// error ends the registration with that error.
pub fn try_register_user_step(lookup: Result<(), DbError>) -> (r: RegisterStep)
    ensures
        lookup is Ok ==> (r matches RegisterStep::Finish(Ok(RegisterRtType::Exist(m))) && m@
            == EXIST_MSG@),
        lookup == Err::<(), DbError>(DbError::RowNotFound) ==> r == RegisterStep::Register,
        lookup matches Err(e) ==> (e != DbError::RowNotFound ==> r == RegisterStep::Finish(
            Err(e),
        )),
{
    match lookup {
        Ok(()) => RegisterStep::Finish(Ok(RegisterRtType::Exist(String::from_str(EXIST_MSG)))),
        Err(DbError::RowNotFound) => RegisterStep::Register,
        Err(e) => RegisterStep::Finish(Err(e)),
    }
}

/// The description stored for a user who gave none.
pub const DEFAULT_DESC: &'static str = "这人很懒，什么都没留下~";

/// The description that is stored: the given one, or the default when empty.
pub open spec fn stored_desc(desc: Seq<char>) -> Seq<char> {
    if desc.len() == 0 {
        DEFAULT_DESC@
    } else {
        desc
    }
}

/// The statement that inserts a new user.
pub open spec fn register_sql(
    id: Seq<char>,
    name: Seq<char>,
    pwd_hash: Seq<char>,
    email: Seq<char>,
    phone: Seq<char>,
    desc: Seq<char>,
    create_time: u64,
) -> Seq<char> {
    "INSERT INTO public.user (id, name, pwd, email, phone, description, create_time) VALUES ('"@
        + id + "', '"@ + name + "', '"@ + pwd_hash + "', '"@ + email + "', "@ + phone + ", '"@
        + desc + "', "@ + nat_dec(create_time as nat) + ")"@
}

/// How a new user is inserted: the new id, the description stored, and the
/// statement.
#[derive(Debug, PartialEq, Eq, Clone)]
pub struct RegisterPlan {
    pub id: String,
    pub desc: String,
    pub sql: String,
}

/// The insertion of a new user with a given id at a given time, from the
/// registration data (name, password, e-mail, phone, description).
pub fn register_user_at(
    data: (String, String, String, String, String),
    id: String,
    create_time: u64,
) -> (r: RegisterPlan)
    ensures
        r.id == id,
        r.desc@ == stored_desc(data.4@),
        r.sql@ == register_sql(
            id@,
            data.0@,
            pwd_hash(data.1@),
            data.2@,
            data.3@,
            stored_desc(data.4@),
            create_time,
        ),
{
    let (name, pwd, email, phone, desc) = data;
    let hash = md5_hex(pwd.as_str());
    let desc = if desc.as_str().is_empty() {
        String::from_str(DEFAULT_DESC)
    } else {
        desc
    };
    let mut sql = String::from_str(
        "INSERT INTO public.user (id, name, pwd, email, phone, description, create_time) VALUES ('",
    );
    sql.append(id.as_str());
    sql.append("', '");
    sql.append(name.as_str());
    sql.append("', '");
    sql.append(hash.as_str());
    sql.append("', '");
    sql.append(email.as_str());
    sql.append("', ");
    sql.append(phone.as_str());
    sql.append(", '");
    sql.append(desc.as_str());
    sql.append("', ");
    push_u64(&mut sql, create_time);
    sql.append(")");
    RegisterPlan { id, desc, sql }
}

/// The insertion of a new user now, with a fresh random id: the id is a UUID
/// drawn from the random source during the call, and the creation time is the
/// clock's reading.
pub fn register_user_plan(data: (String, String, String, String, String)) -> (r: RegisterPlan)
    ensures
        is_v4_uuid_text(r.id@),
        is_drawn_uuid_text(r.id@),
        r.desc@ == stored_desc(data.4@),
        exists|t: u64|
            r.sql@ == register_sql(
                r.id@,
                data.0@,
                pwd_hash(data.1@),
                data.2@,
                data.3@,
                stored_desc(data.4@),
                t,
            ),
        exists|t: u64|
            #![trigger is_clock_reading(t)]
            is_clock_reading(t) && r.sql@ == register_sql(
                r.id@,
                data.0@,
                pwd_hash(data.1@),
                data.2@,
                data.3@,
                stored_desc(data.4@),
                t,
            ),
{
    let id = new_uuid();
    let create_time = read_clock();
    let r = register_user_at(data, id, create_time);
    assert(is_clock_reading(create_time));
    r
}

/// The outcome of the insertion: the new user's data when the statement ran
/// (it returns no row, so "no row" counts as success too), the error otherwise.
pub fn register_user_outcome(result: Result<(), DbError>, name: String, plan: RegisterPlan) -> (r:
    Result<RegisterRtType, DbError>)
    ensures
        (result is Ok || result == Err::<(), DbError>(DbError::RowNotFound)) ==> r == Ok::<
            RegisterRtType,
            DbError,
        >(RegisterRtType::Success(LoginSuccessData { name, desc: plan.desc, user_id: plan.id })),
        result matches Err(e) ==> (e != DbError::RowNotFound ==> r == Err::<
            RegisterRtType,
            DbError,
        >(e)),
{
    match result {
        Ok(()) | Err(DbError::RowNotFound) => Ok(
            RegisterRtType::Success(LoginSuccessData { name, desc: plan.desc, user_id: plan.id }),
        ),
        Err(e) => Err(e),
    }
}

/// The stored description is never empty.
pub proof fn lemma_stored_desc_nonempty(desc: Seq<char>)
    ensures
        stored_desc(desc).len() > 0,
{
    reveal_strlit("这人很懒，什么都没留下~");
}

} // verus!
