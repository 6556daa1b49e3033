//! The service boundary: the single remote method, `get_item`, with its
//! interceptor hook.
//!
//! An interceptor may inspect a request and its call metadata before
//! dispatch and either let the call through or reject it. Its verdict is
//! handed in as a value, so the request that reaches the dispatcher is — by
//! construction — the very request the caller supplied: an interceptor has
//! no way to mutate the business fields silently.

use crate::model::dispatch_spec;
use crate::protocol::{res_view, Request, Response, RpcError};
use crate::store::Store;
use vstd::prelude::*;

verus! {

/// The one exposed remote method. With no verdict, the call goes to the
/// dispatcher; with a rejection verdict, that error is returned and the
/// store is not touched.
pub fn get_item(store: &mut Store, req: &Request, verdict: Option<RpcError>) -> (r: Result<
    Response,
    RpcError,
>)
    ensures
        final(store)@ == (match verdict {
            Some(_) => old(store)@,
            None => dispatch_spec(old(store)@, req@).0,
        }),
        res_view(r) == (match verdict {
            Some(e) => Err(e@),
            None => dispatch_spec(old(store)@, req@).1,
        }),
{
    match verdict {
        Some(e) => Err(e),
        None => crate::dispatch::dispatch(store, req),
    }
}

} // verus!
