//! The op dispatcher: interprets a request's op code, validates the
//! arguments, invokes the store, and builds the response or the error.
//!
//! This is the single place that enforces protocol-level validation (the
//! blank-key check), so the store stays free of it.

use crate::model::{dispatch_spec, Op};
use crate::protocol::{is_blank, parse_op, res_view, Request, Response, RpcError};
use crate::store::Store;
use vstd::prelude::*;

verus! {

/// Runs one request against the store, exactly as the model's
/// `dispatch_spec` prescribes: an unrecognized op code or a blank key on a
/// keyed op yields `InvalidRequest`; `get`/`del` of an absent key yields
/// `NotFound` carrying the key; side effects on the store are confined to
/// `set` and `del`.
pub fn dispatch(store: &mut Store, req: &Request) -> (r: Result<Response, RpcError>)
    ensures
        final(store)@ == dispatch_spec(old(store)@, req@).0,
        res_view(r) == dispatch_spec(old(store)@, req@).1,
{
    match parse_op(&req.op) {
        None => Err(RpcError::InvalidRequest),
        Some(Op::Ping) => Ok(Response { val: store.ping() }),
        Some(Op::Get) => {
            if is_blank(&req.key) {
                Err(RpcError::InvalidRequest)
            } else {
                match store.get(&req.key) {
                    Some(v) => Ok(Response { val: v }),
                    None => Err(RpcError::NotFound { key: req.key.clone() }),
                }
            }
        },
        Some(Op::SetOp) => {
            if is_blank(&req.key) {
                Err(RpcError::InvalidRequest)
            } else {
                let stored = store.set(req.key.clone(), req.val.clone());
                Ok(Response { val: stored })
            }
        },
        Some(Op::Del) => {
            if is_blank(&req.key) {
                Err(RpcError::InvalidRequest)
            } else {
                if store.del(&req.key) {
                    Ok(Response { val: "deleted".to_owned() })
                } else {
                    Err(RpcError::NotFound { key: req.key.clone() })
                }
            }
        },
    }
}

} // verus!
