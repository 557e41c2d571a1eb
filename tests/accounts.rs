use room_relay::auth::{verify_password, AuthError, Credential, UserData, UserId, UserMail, UserPass};
use room_relay::session::{SessionError, SessionPool, SessionTable};
use room_relay::time_limit::is_time_in_range;
use room_relay::user_name::{add_cookie_to_jar, delete_cookie_from_jar, get_user_name_from_cookie, UserNameForCoockie};
use axum_extra::extract::cookie::CookieJar;

const USER_MAIL: &str = "test_user_mail";
const USER_PASS: &str = "test_user_pass";

#[test]
fn add_and_get_session() {
    let db = SessionPool::new();

    let payload_user_data = UserData::new(Credential::new(
        UserMail::new(USER_MAIL),
        UserPass::new(USER_PASS),
    ));

    let session_id = db.add_session(payload_user_data.clone()).unwrap();

    let res = db.verify_session(&session_id).unwrap().unwrap();
    let res_user_id = res.get_id();

    assert_eq!(res_user_id, payload_user_data.get_user_id().get_id_txt())
}

#[test]
fn unknown_and_deleted_sessions() {
    let db = SessionPool::new();
    let user = UserData::new(Credential::new(UserMail::new("m"), UserPass::new("p")));
    let sid = db.add_session(user).unwrap();
    assert_eq!(sid.len(), 36);
    assert!(matches!(db.verify_session("nope"), Err(SessionError::DbError)));
    assert_eq!(db.delete_session(&sid), Ok(()));
    assert!(matches!(db.verify_session(&sid), Err(SessionError::DbError)));
    assert_eq!(db.delete_session(&sid), Err(SessionError::NotFound));
}

#[test]
fn session_table_refuses_open_id() {
    let mut t = SessionTable::new();
    assert_eq!(t.add("s1".to_string(), "u1"), Ok(()));
    assert_eq!(t.add("s1".to_string(), "u2"), Err(SessionError::UnexpectedError));
    assert_eq!(t.verify("s1").unwrap().unwrap().get_id(), "u1");
}

#[test]
fn user_data_keeps_credential_and_draws_id() {
    let a = UserData::new(Credential::new(UserMail::new(USER_MAIL), UserPass::new(USER_PASS)));
    let b = UserData::new(Credential::new(UserMail::new(USER_MAIL), UserPass::new(USER_PASS)));
    assert_eq!(a.get_user_mail().get_mail_txt(), USER_MAIL);
    assert_eq!(a.get_user_pass().get_pass_txt(), USER_PASS);
    assert_eq!(a.get_user_id().get_id_txt().len(), 36);
    assert_ne!(a.get_user_id().get_id_txt(), b.get_user_id().get_id_txt());
    let c = Credential::new(UserMail::new("x"), UserPass::new("y"));
    assert_eq!(c.get_user_mail().get_mail_txt(), "x");
    assert_eq!(c.get_user_pass().get_pass_txt(), "y");
}

#[test]
fn password_check() {
    let stored = UserData::from_parts(UserId::new("id1"), UserMail::new("m"), UserPass::new("secret"));
    let good = Credential::new(UserMail::new("m"), UserPass::new("secret"));
    let bad = Credential::new(UserMail::new("m"), UserPass::new("Secret"));
    let ok = verify_password(Some(stored.clone()), &good).unwrap();
    assert_eq!(ok.get_user_id().get_id_txt(), "id1");
    assert!(matches!(verify_password(Some(stored), &bad), Err(AuthError::DifferentPassword)));
    assert!(matches!(verify_password(None, &good), Err(AuthError::UserNotFound)));
}

#[test]
fn display_name_cookie_round_trip() {
    let jar = CookieJar::new();
    assert_eq!(get_user_name_from_cookie(jar.clone()), None);
    let jar = add_cookie_to_jar("bob".to_string(), jar);
    assert_eq!(get_user_name_from_cookie(jar.clone()), Some("bob".to_string()));
    let jar = add_cookie_to_jar("alice".to_string(), jar);
    assert_eq!(get_user_name_from_cookie(jar.clone()), Some("alice".to_string()));
    let jar = delete_cookie_from_jar(jar);
    assert_eq!(get_user_name_from_cookie(jar), None);
    let n = UserNameForCoockie::new("carol".to_string());
    assert_eq!(n.get_user_name(), "carol");
}

#[test]
fn time_window_bounds() {
    assert!(!is_time_in_range(64800, 0));
    assert!(is_time_in_range(64800, 1));
    assert!(is_time_in_range(70000, 0));
    assert!(is_time_in_range(82799, 999_999_999));
    assert!(!is_time_in_range(82800, 0));
    assert!(!is_time_in_range(0, 0));
}
