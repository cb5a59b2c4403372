use user_info::record::{updated_with_name, updated_with_status};
use user_info::{Info, UserInfo};

#[test]
fn set_get_message() {
    let mut contract = UserInfo::default();
    contract.set_status("bob_near".to_string(), "hello".to_string());
    assert_eq!(
        "hello".to_string(),
        contract.get_status("bob_near".to_string()).unwrap()
    );
}

#[test]
fn set_get_name() {
    let mut contract = UserInfo::default();
    contract.set_name("bob_near".to_string(), "hello".to_string());
    assert_eq!(
        "hello".to_string(),
        contract.get_name("bob_near".to_string()).unwrap()
    );
}

#[test]
fn get_nonexistent_message() {
    let contract = UserInfo::default();
    assert_eq!(None, contract.get_status("francis.near".to_string()));
}

#[test]
fn fresh_store_reads_absent() {
    let store = UserInfo::default();
    assert!(store.get_info("francis".to_string()).is_none());
    assert_eq!(None, store.get_name("francis".to_string()));
    assert_eq!(None, store.get_status("francis".to_string()));
}

#[test]
fn set_status_then_read() {
    let mut store = UserInfo::default();
    store.set_status("bob".to_string(), "hello".to_string());
    assert_eq!(Some("hello".to_string()), store.get_status("bob".to_string()));
}

#[test]
fn set_name_then_read() {
    let mut store = UserInfo::default();
    store.set_name("bob".to_string(), "hello".to_string());
    assert_eq!(Some("hello".to_string()), store.get_name("bob".to_string()));
}

#[test]
fn set_name_on_fresh_key_defaults_status_to_empty() {
    let mut store = UserInfo::default();
    store.set_name("bob".to_string(), "Bob".to_string());
    assert_eq!(Some("".to_string()), store.get_status("bob".to_string()));
    assert_eq!(Some("Bob".to_string()), store.get_name("bob".to_string()));
}

#[test]
fn set_status_on_fresh_key_defaults_name_to_empty() {
    let mut store = UserInfo::default();
    store.set_status("bob".to_string(), "busy".to_string());
    assert_eq!(Some("".to_string()), store.get_name("bob".to_string()));
}

#[test]
fn both_fields_read_back_through_get_info() {
    let mut store = UserInfo::default();
    store.set_name("bob".to_string(), "Bob".to_string());
    store.set_status("bob".to_string(), "busy".to_string());
    let info = store.get_info("bob".to_string()).unwrap();
    assert_eq!("Bob".to_string(), info.name);
    assert_eq!("busy".to_string(), info.status);
}

#[test]
fn second_status_wins_and_name_is_kept() {
    let mut store = UserInfo::default();
    store.set_name("bob".to_string(), "Bob".to_string());
    store.set_status("bob".to_string(), "first".to_string());
    store.set_status("bob".to_string(), "second".to_string());
    assert_eq!(Some("second".to_string()), store.get_status("bob".to_string()));
    assert_eq!(Some("Bob".to_string()), store.get_name("bob".to_string()));
}

#[test]
fn repeated_status_write_is_idempotent() {
    let mut once = UserInfo::default();
    once.set_status("bob".to_string(), "hello".to_string());
    let mut twice = UserInfo::default();
    twice.set_status("bob".to_string(), "hello".to_string());
    twice.set_status("bob".to_string(), "hello".to_string());
    assert_eq!(
        once.get_status("bob".to_string()),
        twice.get_status("bob".to_string())
    );
    assert_eq!(
        once.get_name("bob".to_string()),
        twice.get_name("bob".to_string())
    );
}

#[test]
fn writes_to_one_key_leave_other_keys_alone() {
    let mut store = UserInfo::default();
    store.set_name("alice".to_string(), "Alice".to_string());
    store.set_status("alice".to_string(), "here".to_string());
    store.set_status("bob".to_string(), "away".to_string());
    store.set_name("bob".to_string(), "Bob".to_string());
    assert_eq!(Some("Alice".to_string()), store.get_name("alice".to_string()));
    assert_eq!(Some("here".to_string()), store.get_status("alice".to_string()));
    assert_eq!(Some("Bob".to_string()), store.get_name("bob".to_string()));
    assert_eq!(Some("away".to_string()), store.get_status("bob".to_string()));
    assert_eq!(None, store.get_status("carol".to_string()));
}

#[test]
fn updated_with_status_merges_fields() {
    let fresh = updated_with_status(None, "hello".to_string());
    assert_eq!("".to_string(), fresh.name);
    assert_eq!("hello".to_string(), fresh.status);
    let prev = Info {
        name: "Bob".to_string(),
        status: "old".to_string(),
    };
    let merged = updated_with_status(Some(prev), "new".to_string());
    assert_eq!("Bob".to_string(), merged.name);
    assert_eq!("new".to_string(), merged.status);
}

#[test]
fn updated_with_name_merges_fields() {
    let fresh = updated_with_name(None, "Bob".to_string());
    assert_eq!("Bob".to_string(), fresh.name);
    assert_eq!("".to_string(), fresh.status);
    let prev = Info {
        name: "old".to_string(),
        status: "busy".to_string(),
    };
    let merged = updated_with_name(Some(prev), "new".to_string());
    assert_eq!("new".to_string(), merged.name);
    assert_eq!("busy".to_string(), merged.status);
}
