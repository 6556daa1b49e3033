use kv_gateway::boundary::get_item;
use kv_gateway::gateway::{
    build_del_request, build_get_request, build_ping_request, build_set_request, del_form_page,
    del_reply_of, handle_del, handle_get, handle_ping, handle_ping_key, handle_set, reply_of,
    set_form_page,
};
use kv_gateway::protocol::{Response, RpcError};
use kv_gateway::store::Store;

#[test]
fn ping_endpoint_is_local_pong() {
    let r = handle_ping();
    assert_eq!(r.status, 200);
    assert_eq!(r.body, "pong");
}

#[test]
fn ping_key_endpoint_ignores_its_key() {
    let mut store = Store::new();
    let r = handle_ping_key(&mut store, &"whatever".to_string());
    assert_eq!(r.status, 200);
    assert_eq!(r.body, "pong");
    let r = handle_ping_key(&mut store, &" ".to_string());
    assert_eq!(r.status, 200);
    assert_eq!(r.body, "pong");
}

#[test]
fn set_then_get_scenario() {
    let mut store = Store::new();
    let r = handle_set(&mut store, "hello".to_string(), "world".to_string());
    assert_eq!(r.status, 200);
    assert_eq!(r.body, "world");
    let r = handle_get(&mut store, "hello".to_string());
    assert_eq!(r.status, 200);
    assert_eq!(r.body, "world");
}

#[test]
fn get_missing_scenario_is_404() {
    let mut store = Store::new();
    let r = handle_get(&mut store, "missing".to_string());
    assert_eq!(r.status, 404);
    assert_eq!(r.body, "key not found: missing");
}

#[test]
fn del_then_get_scenario() {
    let mut store = Store::new();
    handle_set(&mut store, "hello".to_string(), "world".to_string());
    let r = handle_del(&mut store, "hello".to_string());
    assert_eq!(r.status, 200);
    assert_eq!(r.body, "Successful delete");
    let r = handle_get(&mut store, "hello".to_string());
    assert_eq!(r.status, 404);
}

#[test]
fn del_of_absent_key_is_delete_error() {
    let mut store = Store::new();
    let r = handle_del(&mut store, "ghost".to_string());
    assert_eq!(r.status, 404);
    assert_eq!(r.body, "Delete error");
}

#[test]
fn set_with_blank_key_stores_nothing() {
    let mut store = Store::new();
    let r = handle_set(&mut store, " ".to_string(), "world".to_string());
    assert_eq!(r.status, 404);
    assert_eq!(r.body, "invalid request");
    let r = handle_get(&mut store, " ".to_string());
    assert_eq!(r.status, 404);
}

#[test]
fn form_pages_serve_the_forms() {
    let set_page = set_form_page();
    assert_eq!(set_page.status, 200);
    assert!(set_page.body.contains("<form action=\"/set\""));
    assert!(set_page.body.contains("name=\"key\""));
    assert!(set_page.body.contains("name=\"value\""));
    let del_page = del_form_page();
    assert_eq!(del_page.status, 200);
    assert!(del_page.body.contains("<form action=\"/del\""));
    assert!(del_page.body.contains("name=\"key\""));
}

#[test]
fn builders_fill_the_wire_fields() {
    let r = build_ping_request();
    assert_eq!((r.op.as_str(), r.key.as_str(), r.val.as_str()), ("ping", " ", " "));
    let r = build_get_request("k".to_string());
    assert_eq!((r.op.as_str(), r.key.as_str(), r.val.as_str()), ("get", "k", " "));
    let r = build_set_request("k".to_string(), "v".to_string());
    assert_eq!((r.op.as_str(), r.key.as_str(), r.val.as_str()), ("set", "k", "v"));
    let r = build_del_request("k".to_string());
    assert_eq!((r.op.as_str(), r.key.as_str(), r.val.as_str()), ("del", "k", " "));
}

#[test]
fn boundary_passes_calls_through() {
    let mut store = Store::new();
    let r = get_item(&mut store, &build_set_request("k".to_string(), "v".to_string()), None);
    assert_eq!(r.unwrap().val, "v");
    let r = get_item(&mut store, &build_get_request("k".to_string()), None);
    assert_eq!(r.unwrap().val, "v");
}

#[test]
fn boundary_rejection_short_circuits() {
    let mut store = Store::new();
    let r = get_item(
        &mut store,
        &build_set_request("k".to_string(), "v".to_string()),
        Some(RpcError::TransportFailure),
    );
    assert!(matches!(r, Err(RpcError::TransportFailure)));
    // The rejected call never reached the dispatcher: nothing was stored.
    assert!(store.get(&"k".to_string()).is_none());
}

#[test]
fn every_error_kind_collapses_to_404() {
    for e in [
        RpcError::NotFound { key: "k".to_string() },
        RpcError::InvalidRequest,
        RpcError::TransportFailure,
    ] {
        let r = reply_of(Err(e));
        assert_eq!(r.status, 404);
    }
    let r = reply_of(Ok(Response { val: "v".to_string() }));
    assert_eq!(r.status, 200);
    assert_eq!(r.body, "v");
}

#[test]
fn del_replies_discard_the_error_detail() {
    let r = del_reply_of(Ok(Response { val: "deleted".to_string() }));
    assert_eq!(r.status, 200);
    assert_eq!(r.body, "Successful delete");
    let r = del_reply_of(Err(RpcError::NotFound { key: "k".to_string() }));
    assert_eq!(r.status, 404);
    assert_eq!(r.body, "Delete error");
}

#[test]
fn values_survive_non_ascii_text() {
    let mut store = Store::new();
    let r = handle_set(&mut store, "clé".to_string(), "värde-日本".to_string());
    assert_eq!(r.status, 200);
    let r = handle_get(&mut store, "clé".to_string());
    assert_eq!(r.status, 200);
    assert_eq!(r.body, "värde-日本");
}
