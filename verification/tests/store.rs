use rust_class_web::entity::{devices, users};
use rust_class_web::store::Store;

fn user(name: &str, email: &str) -> users::NewModel {
    users::NewModel {
        name: name.to_string(),
        email: email.to_string(),
        pass_word: "h".to_string(),
        status: "normal".to_string(),
        create_time: 5,
        update_time: 6,
    }
}

#[test]
fn keys_count_up_and_are_not_reused() {
    let mut store = Store::new();
    assert_eq!(store.insert_user(user("a", "a@x.io")).unwrap().id, 1);
    assert_eq!(store.insert_user(user("b", "b@x.io")).unwrap().id, 2);
    assert_eq!(store.delete_user(2), 1);
    assert_eq!(store.insert_user(user("c", "c@x.io")).unwrap().id, 3);
    assert_eq!(store.delete_user(2), 0);
}

#[test]
fn addresses_are_unique() {
    let mut store = Store::new();
    store.insert_user(user("a", "a@x.io")).unwrap();
    assert_eq!(store.insert_user(user("b", "a@x.io")).unwrap_err(), "UNIQUE constraint failed: users.email");
    assert_eq!(store.users().len(), 1);
    assert_eq!(store.find_user_by_email("a@x.io").unwrap().name, "a");
    assert!(store.find_user_by_email("A@x.io").is_none());
}

#[test]
fn devices_belong_to_stored_users() {
    let mut store = Store::new();
    let new = devices::NewModel { user_id: 1, token: "t".to_string() };
    assert_eq!(store.insert_device(new, 9).unwrap_err(), "FOREIGN KEY constraint failed");
    store.insert_user(user("a", "a@x.io")).unwrap();
    let row = store.insert_device(devices::NewModel { user_id: 1, token: "t".to_string() }, 9).unwrap();
    assert_eq!(row.id, 1);
    assert_eq!(row.user_id, 1);
    assert_eq!(row.token, "t");
    assert_eq!(row.create_time, 9);
    assert_eq!(row.update_time, 9);
    assert_eq!(row.name, None);
}

#[test]
fn deleting_a_user_takes_its_devices_along() {
    let mut store = Store::new();
    store.insert_user(user("a", "a@x.io")).unwrap();
    store.insert_user(user("b", "b@x.io")).unwrap();
    for (owner, token) in [(1, "x"), (2, "y"), (1, "z")] {
        store.insert_device(devices::NewModel { user_id: owner, token: token.to_string() }, 0).unwrap();
    }
    assert_eq!(store.delete_user(1), 1);
    assert_eq!(store.users().len(), 1);
    assert_eq!(store.devices().len(), 1);
    assert_eq!(store.devices()[0].token, "y");
}

#[test]
fn delete_devices_counts_what_it_removed() {
    let mut store = Store::new();
    store.insert_user(user("a", "a@x.io")).unwrap();
    for token in ["x", "y", "x"] {
        store.insert_device(devices::NewModel { user_id: 1, token: token.to_string() }, 0).unwrap();
    }
    let by_token = devices::Filter { user_id: 1, token: Some("x".to_string()) };
    assert!(by_token.selects(&store.devices()[0]));
    assert!(!by_token.selects(&store.devices()[1]));
    assert_eq!(store.delete_devices(&by_token), 2);
    assert_eq!(store.delete_devices(&by_token), 0);
    assert_eq!(store.delete_devices(&devices::Filter { user_id: 2, token: None }), 0);
    assert_eq!(store.delete_devices(&devices::Filter { user_id: 1, token: None }), 1);
    assert_eq!(store.devices().len(), 0);
}
