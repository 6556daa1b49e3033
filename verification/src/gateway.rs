//! The HTTP gateway: the translation between HTTP semantics and the
//! protocol's single remote method.
//!
//! Each endpoint builds a protocol request, passes it through the service
//! boundary, and maps the outcome to an HTTP status and body. Every error —
//! whatever its kind — collapses to status 404, which is this surface's
//! documented mapping policy. The delete endpoint additionally discards the
//! error detail and answers with fixed texts.

use crate::boundary::get_item;
use crate::model::{
    dispatch_spec, is_blank_v, lemma_op_codes, ping_ack_v, ErrV, ReqV,
};
use crate::protocol::{err_text_v, res_view, Request, Response, RpcError};
use crate::store::Store;
use vstd::prelude::*;

verus! {

/// An HTTP reply: a status code and a text body.
pub struct HttpReply {
    pub status: u16,
    pub body: String,
}

/// Abstract view of an HTTP reply.
pub struct ReplyV {
    pub status: int,
    pub body: Seq<char>,
}

impl View for HttpReply {
    type V = ReplyV;

    open spec fn view(&self) -> ReplyV {
        ReplyV { status: self.status as int, body: self.body@ }
    }
}

/// The reply the value-carrying endpoints make from a call outcome: 200
/// with the response value, or 404 with the error text.
pub open spec fn reply_v(out: Result<Seq<char>, ErrV>) -> ReplyV {
    match out {
        Ok(v) => ReplyV { status: 200, body: v },
        Err(e) => ReplyV { status: 404, body: err_text_v(e) },
    }
}

/// The delete endpoint's reply: fixed texts, the error detail discarded.
pub open spec fn del_reply_v(out: Result<Seq<char>, ErrV>) -> ReplyV {
    match out {
        Ok(_) => ReplyV { status: 200, body: "Successful delete"@ },
        Err(_) => ReplyV { status: 404, body: "Delete error"@ },
    }
}

/// The `ping` request a gateway issues: both argument fields carry the
/// whitespace placeholder.
pub open spec fn ping_request_v() -> ReqV {
    ReqV { op: "ping"@, key: " "@, val: " "@ }
}

/// The `get` request for a key.
pub open spec fn get_request_v(key: Seq<char>) -> ReqV {
    ReqV { op: "get"@, key: key, val: " "@ }
}

/// The `set` request for a key and value.
pub open spec fn set_request_v(key: Seq<char>, val: Seq<char>) -> ReqV {
    ReqV { op: "set"@, key: key, val: val }
}

/// The `del` request for a key.
pub open spec fn del_request_v(key: Seq<char>) -> ReqV {
    ReqV { op: "del"@, key: key, val: " "@ }
}

/// Builds the wire request for `ping`.
pub fn build_ping_request() -> (r: Request)
    ensures
        r@ == ping_request_v(),
{
    Request { op: "ping".to_owned(), key: " ".to_owned(), val: " ".to_owned() }
}

/// Builds the wire request for `get` of `key`.
pub fn build_get_request(key: String) -> (r: Request)
    ensures
        r@ == get_request_v(key@),
{
    Request { op: "get".to_owned(), key, val: " ".to_owned() }
}

/// Builds the wire request for `set` of `key` to `val`.
pub fn build_set_request(key: String, val: String) -> (r: Request)
    ensures
        r@ == set_request_v(key@, val@),
{
    Request { op: "set".to_owned(), key, val }
}

/// Builds the wire request for `del` of `key`.
pub fn build_del_request(key: String) -> (r: Request)
    ensures
        r@ == del_request_v(key@),
{
    Request { op: "del".to_owned(), key, val: " ".to_owned() }
}

/// Maps a call outcome to the HTTP reply of the value-carrying endpoints.
pub fn reply_of(out: Result<Response, RpcError>) -> (r: HttpReply)
    ensures
        r@ == reply_v(res_view(out)),
{
    match out {
        Ok(resp) => HttpReply { status: 200, body: resp.val },
        Err(e) => {
            let body = e.describe();
            HttpReply { status: 404, body }
        },
    }
}

/// Maps a call outcome to the delete endpoint's HTTP reply.
pub fn del_reply_of(out: Result<Response, RpcError>) -> (r: HttpReply)
    ensures
        r@ == del_reply_v(res_view(out)),
{
    match out {
        Ok(_) => HttpReply { status: 200, body: "Successful delete".to_owned() },
        Err(_) => HttpReply { status: 404, body: "Delete error".to_owned() },
    }
}

/// The static HTML form served at `GET /set`.
pub const SET_FORM: &'static str = "<!doctype html><html><body><form action=\"/set\" method=\"post\"><label>key: <input type=\"text\" name=\"key\"></label> <label>value: <input type=\"text\" name=\"value\"></label> <input type=\"submit\" value=\"Submit\"></form></body></html>";

/// The static HTML form served at `GET /del`.
pub const DEL_FORM: &'static str = "<!doctype html><html><body><form action=\"/del\" method=\"post\"><label>key: <input type=\"text\" name=\"key\"></label> <input type=\"submit\" value=\"Submit\"></form></body></html>";

/// `GET /set`: the static form for setting a key. Always succeeds.
pub fn set_form_page() -> (r: HttpReply)
    ensures
        r@.status == 200,
        r@.body == SET_FORM@,
{
    HttpReply { status: 200, body: SET_FORM.to_owned() }
}

/// `GET /del`: the static form for deleting a key. Always succeeds.
pub fn del_form_page() -> (r: HttpReply)
    ensures
        r@.status == 200,
        r@.body == DEL_FORM@,
{
    HttpReply { status: 200, body: DEL_FORM.to_owned() }
}

/// `GET /ping`: answered locally with the acknowledgment, without a remote
/// call. Always succeeds.
pub fn handle_ping() -> (r: HttpReply)
    ensures
        r@.status == 200,
        r@.body == ping_ack_v(),
{
    HttpReply { status: 200, body: "pong".to_owned() }
}

/// `GET /ping/{key}`: the path key is accepted but not forwarded — the ping
/// request carries placeholders only, a documented quirk of this surface.
/// Always succeeds and never touches the store.
pub fn handle_ping_key(store: &mut Store, _key: &String) -> (r: HttpReply)
    ensures
        final(store)@ == old(store)@,
        r@.status == 200,
        r@.body == ping_ack_v(),
{
    let req = build_ping_request();
    let out = get_item(store, &req, None);
    proof {
        lemma_op_codes();
    }
    reply_of(out)
}

/// `GET /get/{key}`: issues a `get` for the path key. 200 with the stored
/// value when the key is present; 404 with the error text when it is absent
/// or blank. Never changes the store.
pub fn handle_get(store: &mut Store, key: String) -> (r: HttpReply)
    ensures
        final(store)@ == old(store)@,
        r@ == reply_v(dispatch_spec(old(store)@, get_request_v(key@)).1),
        !is_blank_v(key@) && old(store)@.contains_key(key@) ==> r@.status == 200 && r@.body
            == old(store)@[key@],
        !is_blank_v(key@) && !old(store)@.contains_key(key@) ==> r@.status == 404 && r@.body
            == err_text_v(ErrV::NotFound(key@)),
        is_blank_v(key@) ==> r@.status == 404,
{
    let req = build_get_request(key);
    let out = get_item(store, &req, None);
    proof {
        lemma_op_codes();
    }
    reply_of(out)
}

/// `POST /set` with form fields `key` and `value`: issues a `set`. On a
/// non-blank key the pair is stored and the reply is 200 with the stored
/// value; on a blank key nothing is stored and the reply is 404.
pub fn handle_set(store: &mut Store, key: String, value: String) -> (r: HttpReply)
    ensures
        final(store)@ == dispatch_spec(old(store)@, set_request_v(key@, value@)).0,
        r@ == reply_v(dispatch_spec(old(store)@, set_request_v(key@, value@)).1),
        !is_blank_v(key@) ==> final(store)@ == old(store)@.insert(key@, value@) && r@.status
            == 200 && r@.body == value@,
        is_blank_v(key@) ==> final(store)@ == old(store)@ && r@.status == 404,
{
    let req = build_set_request(key, value);
    let out = get_item(store, &req, None);
    proof {
        lemma_op_codes();
    }
    reply_of(out)
}

/// `POST /del` with form field `key`: issues a `del`. 200 "Successful
/// delete" when the key was present and is now removed; 404 "Delete error"
/// otherwise, the store left unchanged.
pub fn handle_del(store: &mut Store, key: String) -> (r: HttpReply)
    ensures
        final(store)@ == dispatch_spec(old(store)@, del_request_v(key@)).0,
        r@ == del_reply_v(dispatch_spec(old(store)@, del_request_v(key@)).1),
        !is_blank_v(key@) && old(store)@.contains_key(key@) ==> final(store)@ == old(
            store,
        )@.remove(key@) && r@.status == 200 && r@.body == "Successful delete"@,
        !is_blank_v(key@) && !old(store)@.contains_key(key@) ==> final(store)@ == old(store)@
            && r@.status == 404 && r@.body == "Delete error"@,
        is_blank_v(key@) ==> final(store)@ == old(store)@ && r@.status == 404,
{
    let req = build_del_request(key);
    let out = get_item(store, &req, None);
    proof {
        lemma_op_codes();
    }
    del_reply_of(out)
}

} // verus!
