use rust_class_web::entity::{devices, users};
use rust_class_web::errors::ErrorKind;
use rust_class_web::handlers::index::index;
use rust_class_web::handlers::user::create::{create_user, created, new_user_at, CreateUser};
use rust_class_web::handlers::user::delete::{
    delete_user, delete_user_devices, find_user_active_model, user_deleted, user_id_param,
};
use rust_class_web::handlers::user::get::{get_query_users, users_found, Info};
use rust_class_web::handlers::user::login::{
    authenticated, login, lookup, verify_user, LoginReply, LoginReq, Verifying,
};
use rust_class_web::handlers::user::logout::{logged_out, logout, sessions, LogoutReq};
use rust_class_web::models::token::verify_token;
use rust_class_web::password::verify;
use rust_class_web::store::Store;

fn plain_user(name: &str, email: &str) -> users::NewModel {
    users::NewModel {
        name: name.to_string(),
        email: email.to_string(),
        pass_word: "not a hash".to_string(),
        status: "normal".to_string(),
        create_time: 1_700_000_000,
        update_time: 1_700_000_000,
    }
}

fn session(user_id: i64, token: &str) -> devices::NewModel {
    devices::NewModel { user_id, token: token.to_string() }
}

fn store_with_sessions() -> Store {
    let mut store = Store::new();
    let alice = store.insert_user(plain_user("alice", "alice@example.com")).unwrap();
    let bob = store.insert_user(plain_user("bob", "bob@example.com")).unwrap();
    store.insert_device(session(alice.id, "t1"), 10).unwrap();
    store.insert_device(session(bob.id, "t2"), 11).unwrap();
    store.insert_device(session(alice.id, "t3"), 12).unwrap();
    store.insert_device(session(alice.id, "t1"), 13).unwrap();
    store
}

fn tokens_of(store: &Store, user_id: i64) -> Vec<String> {
    store.devices().iter().filter(|d| d.user_id == user_id).map(|d| d.token.clone()).collect()
}

#[test]
fn index_greets() {
    assert_eq!(index().unwrap(), "Hello, world!");
}

#[test]
fn create_stores_a_normal_user_with_a_hash() {
    let mut store = Store::new();
    let params = CreateUser {
        name: "alice".to_string(),
        email: "alice@example.com".to_string(),
        pass_word: "wonderland".to_string(),
    };
    let resp = create_user(&params, &mut store).unwrap();
    assert_eq!(resp.code, 200);
    assert_eq!(resp.message, "ok");
    assert_eq!(resp.data.id, 1);
    assert_eq!(resp.data.name, "alice");
    assert_eq!(resp.data.email, "alice@example.com");
    assert_eq!(resp.data.status, "normal");
    assert_eq!(resp.data.create_time, resp.data.update_time);
    assert_ne!(resp.data.pass_word, "wonderland");
    assert_eq!(verify(&resp.data.pass_word, "wonderland").unwrap(), true);
    assert_eq!(store.users().len(), 1);
    assert_eq!(store.users()[0], resp.data);
    assert_eq!(store.devices().len(), 0);
}

#[test]
fn create_refuses_what_is_no_address() {
    let mut store = Store::new();
    for email in ["", "alice", "alice@", "@example.com", "a b@example.com"] {
        let params = CreateUser {
            name: "alice".to_string(),
            email: email.to_string(),
            pass_word: "wonderland".to_string(),
        };
        let e = create_user(&params, &mut store).unwrap_err();
        assert_eq!(e.kind(), ErrorKind::ValidationError);
        assert_eq!(e.status_code(), 400);
        assert_eq!(e.message(), "无效的邮箱地址");
        assert_eq!(store.users().len(), 0);
    }
}

#[test]
fn create_refuses_an_address_that_is_taken() {
    let mut store = Store::new();
    store.insert_user(plain_user("alice", "alice@example.com")).unwrap();
    let params = CreateUser {
        name: "other".to_string(),
        email: "alice@example.com".to_string(),
        pass_word: "wonderland".to_string(),
    };
    let e = create_user(&params, &mut store).unwrap_err();
    assert_eq!(e.kind(), ErrorKind::DbError);
    assert_eq!(e.status_code(), 500);
    assert_eq!(store.users().len(), 1);
}

#[test]
fn new_user_at_takes_the_instant_it_is_given() {
    let params = CreateUser {
        name: "carol".to_string(),
        email: "carol@example.com".to_string(),
        pass_word: "pw".to_string(),
    };
    let new = new_user_at(&params, 1_700_000_123).unwrap();
    assert_eq!(new.create_time, 1_700_000_123);
    assert_eq!(new.update_time, 1_700_000_123);
    assert_eq!(new.status, "normal");
    assert_eq!(new.name, "carol");
    assert_eq!(new.email, "carol@example.com");
}

#[test]
fn created_hands_on_the_row_or_the_datastore_error() {
    let row = plain_user("alice", "alice@example.com").into_model(7);
    let resp = created(Ok(row.clone())).unwrap();
    assert_eq!(resp.code, 200);
    assert_eq!(resp.data, row);
    let e = created(Err("disk I/O error".to_string())).unwrap_err();
    assert_eq!(e.kind(), ErrorKind::DbError);
    assert_eq!(e.message(), "disk I/O error");
}

#[test]
fn query_returns_every_user_whose_name_holds_the_part() {
    let mut store = Store::new();
    for (name, email) in [("alice", "a@x.io"), ("bob", "b@x.io"), ("malice", "m@x.io"), ("Alice", "c@x.io")] {
        store.insert_user(plain_user(name, email)).unwrap();
    }
    let resp = get_query_users(&Info { name: "lic".to_string() }, &store).unwrap();
    assert_eq!(resp.code, 200);
    assert_eq!(resp.message, "ok");
    let names: Vec<&str> = resp.data.iter().map(|u| u.name.as_str()).collect();
    assert_eq!(names, vec!["alice", "malice", "Alice"]);
    let all = get_query_users(&Info { name: "".to_string() }, &store).unwrap();
    assert_eq!(all.data.len(), 4);
    let none = get_query_users(&Info { name: "zed".to_string() }, &store).unwrap();
    assert_eq!(none.code, 200);
    assert!(none.data.is_empty());
}

#[test]
fn users_found_maps_the_datastore_error() {
    let e = users_found(Err("no such table: users".to_string())).unwrap_err();
    assert_eq!(e.kind(), ErrorKind::DbError);
    assert_eq!(e.message(), "no such table: users");
    assert_eq!(users_found(Ok(Vec::new())).unwrap().data.len(), 0);
}

#[test]
fn login_with_unknown_address_is_turned_down() {
    let mut store = store_with_sessions();
    let req = LoginReq { email: "nobody@example.com".to_string(), pass_word: "x".to_string() };
    assert_eq!(lookup(&req), "nobody@example.com");
    let reply = login(&req, &mut store).unwrap();
    assert_eq!(reply.status_code(), 401);
    match reply {
        LoginReply::Rejected(resp) => {
            assert_eq!(resp.code, 401);
            assert_eq!(resp.message, "User not found");
        }
        LoginReply::Authenticated(_) => panic!("granted"),
    }
    assert_eq!(store.devices().len(), 4);
}

#[test]
fn login_with_wrong_password_is_turned_down() {
    let mut store = Store::new();
    let params = CreateUser {
        name: "alice".to_string(),
        email: "alice@example.com".to_string(),
        pass_word: "wonderland".to_string(),
    };
    create_user(&params, &mut store).unwrap();
    let req = LoginReq { email: "alice@example.com".to_string(), pass_word: "Wonderland".to_string() };
    let reply = login(&req, &mut store).unwrap();
    assert_eq!(reply.status_code(), 401);
    match reply {
        LoginReply::Rejected(resp) => {
            assert_eq!(resp.code, 401);
            assert_eq!(resp.message, "Invalid password");
        }
        LoginReply::Authenticated(_) => panic!("granted"),
    }
    assert_eq!(store.devices().len(), 0);
}

#[test]
fn login_stores_exactly_one_session_of_the_user() {
    let mut store = Store::new();
    store.insert_user(plain_user("bob", "bob@example.com")).unwrap();
    let params = CreateUser {
        name: "alice".to_string(),
        email: "alice@example.com".to_string(),
        pass_word: "wonderland".to_string(),
    };
    let alice = create_user(&params, &mut store).unwrap().data;
    let req = LoginReq { email: "alice@example.com".to_string(), pass_word: "wonderland".to_string() };
    let reply = login(&req, &mut store).unwrap();
    assert_eq!(reply.status_code(), 200);
    let data = match reply {
        LoginReply::Authenticated(resp) => {
            assert_eq!(resp.code, 200);
            assert_eq!(resp.message, "Login successful");
            resp.data
        }
        LoginReply::Rejected(_) => panic!("rejected"),
    };
    assert_eq!(data.user, alice);
    assert_eq!(store.devices().len(), 1);
    assert_eq!(store.devices()[0].user_id, alice.id);
    assert_eq!(store.devices()[0].token, data.token);
    assert_eq!(store.devices()[0].name, None);
    assert_eq!(verify_token(&data.token).unwrap().sub, "alice@example.com");
    assert_eq!(store.users().len(), 2);
}

#[test]
fn login_with_an_unreadable_hash_is_an_internal_error() {
    let mut store = store_with_sessions();
    let req = LoginReq { email: "alice@example.com".to_string(), pass_word: "x".to_string() };
    let e = login(&req, &mut store).unwrap_err();
    assert_eq!(e.kind(), ErrorKind::InternalError);
    assert_eq!(e.message(), "Password verification error: Decoding failed");
    assert_eq!(store.devices().len(), 4);
}

#[test]
fn verify_user_hands_on_a_failed_lookup() {
    let req = LoginReq { email: "a@x.io".to_string(), pass_word: "x".to_string() };
    match verify_user(&req, Err("connection lost".to_string())) {
        Verifying::Done(Err(e)) => {
            assert_eq!(e.kind(), ErrorKind::DbError);
            assert_eq!(e.message(), "connection lost");
        }
        _ => panic!("went on"),
    }
    match verify_user(&req, Ok(None)) {
        Verifying::Done(Ok(LoginReply::Rejected(resp))) => assert_eq!(resp.message, "User not found"),
        _ => panic!("went on"),
    }
}

#[test]
fn a_session_that_cannot_be_stored_fails_the_login() {
    let user = plain_user("alice", "alice@example.com").into_model(3);
    let e = authenticated(user.clone(), "tok".to_string(), Err("disk full".to_string())).unwrap_err();
    assert_eq!(e.kind(), ErrorKind::InternalError);
    assert_eq!(e.status_code(), 500);
    assert_eq!(e.message(), "设备写入失败: disk full");
    match authenticated(user.clone(), "tok".to_string(), Ok(())).unwrap() {
        LoginReply::Authenticated(resp) => {
            assert_eq!(resp.data.user, user);
            assert_eq!(resp.data.token, "tok");
        }
        LoginReply::Rejected(_) => panic!("rejected"),
    }
}

#[test]
fn logout_without_token_ends_every_session_of_the_user() {
    let mut store = store_with_sessions();
    let resp = logout(&LogoutReq { id: 1, token: None }, &mut store).unwrap();
    assert_eq!(resp.code, 200);
    assert_eq!(resp.data, true);
    assert_eq!(resp.message, "Logout successful");
    assert!(tokens_of(&store, 1).is_empty());
    assert_eq!(tokens_of(&store, 2), vec!["t2"]);
    assert_eq!(store.users().len(), 2);
}

#[test]
fn logout_with_empty_token_ends_every_session_of_the_user() {
    let mut store = store_with_sessions();
    let req = LogoutReq { id: 1, token: Some(String::new()) };
    assert_eq!(sessions(&req).token, None);
    logout(&req, &mut store).unwrap();
    assert!(tokens_of(&store, 1).is_empty());
    assert_eq!(tokens_of(&store, 2), vec!["t2"]);
}

#[test]
fn logout_with_token_ends_only_the_matching_sessions() {
    let mut store = store_with_sessions();
    let req = LogoutReq { id: 1, token: Some("t3".to_string()) };
    let filter = sessions(&req);
    assert_eq!(filter.user_id, 1);
    assert_eq!(filter.token.as_deref(), Some("t3"));
    logout(&req, &mut store).unwrap();
    assert_eq!(tokens_of(&store, 1), vec!["t1", "t1"]);
    assert_eq!(tokens_of(&store, 2), vec!["t2"]);
    let other = LogoutReq { id: 1, token: Some("t2".to_string()) };
    logout(&other, &mut store).unwrap();
    assert_eq!(store.devices().len(), 3);
}

#[test]
fn logout_twice_still_succeeds() {
    let mut store = store_with_sessions();
    let req = LogoutReq { id: 1, token: None };
    logout(&req, &mut store).unwrap();
    let left: Vec<devices::Model> = store.devices().clone();
    let resp = logout(&req, &mut store).unwrap();
    assert_eq!(resp.code, 200);
    assert_eq!(resp.data, true);
    assert_eq!(store.devices(), &left);
    let unknown = logout(&LogoutReq { id: 99, token: None }, &mut store).unwrap();
    assert_eq!(unknown.code, 200);
    assert_eq!(unknown.data, true);
}

#[test]
fn logout_succeeds_whatever_the_datastore_said() {
    for outcome in [Ok(0), Ok(3), Err("connection lost".to_string())] {
        let resp = logged_out(outcome).unwrap();
        assert_eq!(resp.code, 200);
        assert_eq!(resp.data, true);
        assert_eq!(resp.message, "Logout successful");
    }
}

#[test]
fn delete_removes_the_user_and_all_its_devices() {
    let mut store = Store::new();
    for i in 0..41 {
        store.insert_user(plain_user("filler", &format!("u{i}@x.io"))).unwrap();
    }
    let target = store.insert_user(plain_user("target", "t@x.io")).unwrap();
    assert_eq!(target.id, 42);
    for n in 0..5 {
        store.insert_device(session(42, &format!("tok{n}")), n).unwrap();
        store.insert_device(session(7, &format!("other{n}")), n).unwrap();
    }
    let resp = delete_user(Some("42".to_string()), &mut store).unwrap();
    assert_eq!(resp.code, 200);
    assert_eq!(resp.data, true);
    assert_eq!(resp.message, "ok");
    assert!(tokens_of(&store, 42).is_empty());
    assert_eq!(tokens_of(&store, 7).len(), 5);
    assert_eq!(store.devices().len(), 5);
    assert_eq!(store.users().len(), 41);
    assert!(store.find_user_by_id(42).is_none());
}

#[test]
fn delete_of_an_unknown_key_is_not_found() {
    let mut store = store_with_sessions();
    let e = delete_user(Some("42".to_string()), &mut store).unwrap_err();
    assert_eq!(e.kind(), ErrorKind::NotFound);
    assert_eq!(e.status_code(), 404);
    assert_eq!(e.message(), "用户ID 42 不存在");
    assert_eq!(store.users().len(), 2);
    assert_eq!(store.devices().len(), 4);
}

#[test]
fn delete_reads_the_key_from_the_path() {
    assert_eq!(user_id_param(Some("42".to_string())).unwrap(), 42);
    assert_eq!(user_id_param(Some("-3".to_string())).unwrap(), -3);
    let e = user_id_param(Some("4x".to_string())).unwrap_err();
    assert_eq!(e.kind(), ErrorKind::ParseError);
    assert_eq!(e.status_code(), 400);
    assert_eq!(e.message(), "4x".parse::<i64>().unwrap_err().to_string());
    let e = user_id_param(Some(String::new())).unwrap_err();
    assert_eq!(e.message(), "".parse::<i64>().unwrap_err().to_string());
    let e = user_id_param(None).unwrap_err();
    assert_eq!(e.kind(), ErrorKind::BadRequest);
    assert_eq!(e.message(), "无效的无效的用户ID");
    let mut store = store_with_sessions();
    assert_eq!(delete_user(Some("one".to_string()), &mut store).unwrap_err().kind(), ErrorKind::ParseError);
    assert_eq!(store.users().len(), 2);
}

#[test]
fn delete_steps_say_what_to_do_next() {
    let filter = delete_user_devices(9);
    assert_eq!(filter.user_id, 9);
    assert_eq!(filter.token, None);
    let row = plain_user("alice", "alice@example.com").into_model(9);
    assert_eq!(find_user_active_model(9, Ok(Some(row.clone()))).unwrap(), row);
    let e = find_user_active_model(-9, Ok(None)).unwrap_err();
    assert_eq!(e.kind(), ErrorKind::NotFound);
    assert_eq!(e.message(), "用户ID -9 不存在");
    let e = find_user_active_model(9, Err("locked".to_string())).unwrap_err();
    assert_eq!(e.kind(), ErrorKind::DbError);
    assert_eq!(user_deleted(Ok(1)).unwrap().data, true);
    assert_eq!(user_deleted(Ok(0)).unwrap().data, false);
    assert_eq!(user_deleted(Err("locked".to_string())).unwrap_err().message(), "locked");
}
