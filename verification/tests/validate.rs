use blog_server::auth::validate::{validate_login_data, validate_register_data, ValidateData};
use blog_server::auth::LoginData;
use blog_server::state::init_validate_instace;
use blog_server::types::Status;

fn validator() -> ValidateData {
    ValidateData::new().expect("both patterns compile")
}

fn login(key: &str, pwd: &str) -> LoginData {
    LoginData { user_login_key: key.to_string(), pwd: pwd.to_string() }
}

fn register(name: &str, pwd: &str, email: &str, phone: &str, desc: &str) -> (String, String, String, String, String) {
    (name.to_string(), pwd.to_string(), email.to_string(), phone.to_string(), desc.to_string())
}

#[test]
fn patterns_compile() {
    assert!(ValidateData::new().is_ok());
    assert!(init_validate_instace().is_ok());
}

#[test]
fn email_accepted() {
    let v = validator();
    assert!(v.validate_email("user_1@example.com"));
    assert!(v.validate_email("a-b@c.d.e"));
    assert!(v.validate_email("A@B.C"));
}

#[test]
fn email_rejected() {
    let v = validator();
    assert!(!v.validate_email("user@example"));
    assert!(!v.validate_email(""));
    assert!(!v.validate_email("a b@c.d"));
    assert!(!v.validate_email("@c.d"));
    assert!(!v.validate_email("a@c.d."));
    assert!(!v.validate_email("a@@c.d"));
}

#[test]
fn phone_accepted() {
    let v = validator();
    assert!(v.validate_phone("13812345678"));
    assert!(v.validate_phone("14512345678"));
    assert!(v.validate_phone("15012345678"));
    assert!(v.validate_phone("16512345678"));
    assert!(v.validate_phone("17812345678"));
    assert!(v.validate_phone("19912345678"));
}

#[test]
fn phone_rejected() {
    let v = validator();
    assert!(!v.validate_phone("12345678901"));
    assert!(!v.validate_phone("14412345678"));
    assert!(!v.validate_phone("15412345678"));
    assert!(!v.validate_phone("16412345678"));
    assert!(!v.validate_phone("17912345678"));
    assert!(!v.validate_phone("19412345678"));
    assert!(!v.validate_phone("1381234567"));
    assert!(!v.validate_phone("138123456789"));
    assert!(!v.validate_phone(""));
}

#[test]
fn name_length_in_bytes() {
    let v = validator();
    assert!(!v.validate_name(""));
    assert!(v.validate_name("a"));
    assert!(v.validate_name(&"a".repeat(255)));
    assert!(!v.validate_name(&"a".repeat(256)));
    // three bytes per character in UTF-8
    assert!(v.validate_name(&"中".repeat(85)));
    assert!(!v.validate_name(&"中".repeat(86)));
}

#[test]
fn is_empty_finds_an_empty_string() {
    let v = validator();
    assert!(!v.is_empty(vec!["a", "b"]));
    assert!(v.is_empty(vec!["a", ""]));
    assert!(v.is_empty(vec![""]));
    assert!(!v.is_empty(vec![]));
}

#[test]
fn email_phone_name_together() {
    let v = validator();
    assert!(v.validate_email_phone_name("a@b.cn", "13812345678", "dan"));
    assert!(!v.validate_email_phone_name("a@b", "13812345678", "dan"));
    assert!(!v.validate_email_phone_name("a@b.cn", "23812345678", "dan"));
    assert!(!v.validate_email_phone_name("a@b.cn", "13812345678", ""));
}

#[test]
fn login_with_email() {
    let v = validator();
    assert_eq!(validate_login_data(&login("a@b.cn", "pwd"), &v), Ok(true));
}

#[test]
fn login_with_phone() {
    let v = validator();
    assert_eq!(validate_login_data(&login("13812345678", "pwd"), &v), Ok(false));
}

#[test]
fn login_rejected() {
    let v = validator();
    assert_eq!(validate_login_data(&login("", "pwd"), &v), Err(Status::BadRequest));
    assert_eq!(validate_login_data(&login("a@b.cn", ""), &v), Err(Status::BadRequest));
    // holds an `@`, so it must be an e-mail address
    assert_eq!(validate_login_data(&login("1381234567@8", "pwd"), &v), Err(Status::BadRequest));
    assert_eq!(validate_login_data(&login("1381234567", "pwd"), &v), Err(Status::BadRequest));
}

#[test]
fn register_accepted() {
    let v = validator();
    assert_eq!(validate_register_data(register("dan", "pwd", "a@b.cn", "13812345678", ""), &v), Ok(()));
    assert_eq!(validate_register_data(register("dan", "pwd", "a@b.cn", "13812345678", "hi"), &v), Ok(()));
}

#[test]
fn register_rejected() {
    let v = validator();
    assert_eq!(validate_register_data(register("", "pwd", "a@b.cn", "13812345678", ""), &v), Err(Status::BadRequest));
    assert_eq!(validate_register_data(register("dan", "", "a@b.cn", "13812345678", ""), &v), Err(Status::BadRequest));
    assert_eq!(validate_register_data(register("dan", "pwd", "", "13812345678", ""), &v), Err(Status::BadRequest));
    assert_eq!(validate_register_data(register("dan", "pwd", "a@b.cn", "", ""), &v), Err(Status::BadRequest));
    assert_eq!(validate_register_data(register("dan", "pwd", "ab.cn", "13812345678", ""), &v), Err(Status::BadRequest));
    assert_eq!(validate_register_data(register("dan", "pwd", "a@b.cn", "1381234567", ""), &v), Err(Status::BadRequest));
    assert_eq!(validate_register_data(register(&"n".repeat(256), "pwd", "a@b.cn", "13812345678", ""), &v), Err(Status::BadRequest));
}
