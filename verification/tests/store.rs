use chrono::Utc;
use sip_trunk::error::CoreError;
use sip_trunk::models::{Call, CallDirection, CallStatus};
use sip_trunk::store::{
    get_call, get_call_by_control_id, insert_call, list_calls, new_call_store, remove_call,
    update_call_status,
};
use sip_trunk::text::uuid_string;
use uuid::Uuid;

fn make_call() -> Call {
    Call {
        id: Uuid::new_v4().as_u128(),
        call_control_id: "ctrl_123".to_string(),
        direction: CallDirection::Inbound,
        from: "+15551234567".to_string(),
        to: "+15559876543".to_string(),
        status: CallStatus::Initiated,
        started_at: Utc::now().timestamp_nanos_opt().unwrap(),
        ended_at: None,
    }
}

#[test]
fn test_insert_and_get() {
    let mut store = new_call_store();
    let call = make_call();
    let id = call.id;
    insert_call(&mut store, call).unwrap();
    let retrieved = get_call(&store, id).unwrap();
    assert_eq!(retrieved.call_control_id, "ctrl_123");
}

#[test]
fn test_get_missing_returns_error() {
    let store = new_call_store();
    let result = get_call(&store, Uuid::new_v4().as_u128());
    assert!(matches!(result, Err(CoreError::CallNotFound(_))));
}

#[test]
fn test_get_by_control_id() {
    let mut store = new_call_store();
    let call = make_call();
    insert_call(&mut store, call).unwrap();
    let retrieved = get_call_by_control_id(&store, "ctrl_123").unwrap();
    assert_eq!(retrieved.call_control_id, "ctrl_123");
}

#[test]
fn test_list_calls() {
    let mut store = new_call_store();
    assert_eq!(list_calls(&store).len(), 0);
    insert_call(&mut store, make_call()).unwrap();
    insert_call(&mut store, make_call()).unwrap();
    assert_eq!(list_calls(&store).len(), 2);
}

#[test]
fn test_update_status() {
    let mut store = new_call_store();
    let call = make_call();
    let id = call.id;
    insert_call(&mut store, call).unwrap();
    update_call_status(&mut store, id, CallStatus::Answered).unwrap();
    let retrieved = get_call(&store, id).unwrap();
    assert_eq!(retrieved.status, CallStatus::Answered);
}

#[test]
fn test_remove_call() {
    let mut store = new_call_store();
    let call = make_call();
    let id = call.id;
    insert_call(&mut store, call).unwrap();
    remove_call(&mut store, id).unwrap();
    assert!(get_call(&store, id).is_err());
}

#[test]
fn not_found_errors_name_the_call() {
    let mut store = new_call_store();
    let id: u128 = 0x0123_4567_89ab_cdef_0011_2233_4455_6677;
    match get_call(&store, id) {
        Err(CoreError::CallNotFound(s)) => assert_eq!(s, "01234567-89ab-cdef-0011-223344556677"),
        other => panic!("unexpected {:?}", other),
    }
    match update_call_status(&mut store, id, CallStatus::Failed) {
        Err(CoreError::CallNotFound(s)) => assert_eq!(s, Uuid::from_u128(id).to_string()),
        other => panic!("unexpected {:?}", other),
    }
    assert!(matches!(remove_call(&mut store, id), Err(CoreError::CallNotFound(_))));
    match get_call_by_control_id(&store, "ctrl_nope") {
        Err(CoreError::CallNotFound(s)) => assert_eq!(s, "ctrl_nope"),
        other => panic!("unexpected {:?}", other),
    }
}

#[test]
fn identifier_text_matches_uuid_rendering() {
    for id in [0u128, 1, u128::MAX, 0xdead_beef, Uuid::new_v4().as_u128()] {
        assert_eq!(uuid_string(id), Uuid::from_u128(id).to_string());
    }
}

#[test]
fn update_leaves_other_calls_alone() {
    let mut store = new_call_store();
    let a = make_call();
    let mut b = make_call();
    b.call_control_id = "ctrl_b".to_string();
    let (ida, idb) = (a.id, b.id);
    insert_call(&mut store, a).unwrap();
    insert_call(&mut store, b).unwrap();
    update_call_status(&mut store, ida, CallStatus::OnHold).unwrap();
    assert_eq!(get_call(&store, ida).unwrap().status, CallStatus::OnHold);
    assert_eq!(get_call(&store, idb).unwrap().status, CallStatus::Initiated);
    assert_eq!(get_call_by_control_id(&store, "ctrl_b").unwrap().id, idb);
    let all = list_calls(&store);
    assert_eq!(all.len(), 2);
    assert!(all.iter().any(|c| c.id == ida) && all.iter().any(|c| c.id == idb));
}

#[test]
fn insert_replaces_record_with_same_id() {
    let mut store = new_call_store();
    let a = make_call();
    let mut again = a.clone();
    again.status = CallStatus::Ringing;
    insert_call(&mut store, a).unwrap();
    insert_call(&mut store, again).unwrap();
    assert_eq!(list_calls(&store).len(), 1);
    assert_eq!(list_calls(&store)[0].status, CallStatus::Ringing);
}
