//! The protocol's laws, stated over the model and proved once for every
//! store state, key and value.
//!
//! Each law speaks of the spec-level `step` / `dispatch_spec` semantics
//! that the executable store, dispatcher and gateway are proved to follow,
//! so it carries over to any sequence of executable calls. The keyed laws
//! assume a non-blank key, because the dispatcher rejects a blank key as an
//! invalid request before it reaches the store.

use crate::model::{
    del_ack_v, dispatch_spec, is_blank_v, parse_op_spec, ping_ack_v, step, ErrV, Op, ReqV, StoreV,
};
use vstd::prelude::*;

verus! {

/// A `get` of a key never set fails with `NotFound` carrying that key, and
/// leaves the store unchanged.
pub proof fn lemma_get_absent(m: StoreV, k: Seq<char>, x: Seq<char>)
    requires
        !is_blank_v(k),
        !m.contains_key(k),
    ensures
        step(m, Op::Get, k, x).0 == m,
        step(m, Op::Get, k, x).1 == Err::<Seq<char>, ErrV>(ErrV::NotFound(k)),
{
}

/// After `set(k, v)`, a `get(k)` returns exactly `v`; the `set` itself
/// acknowledges with the value just stored.
pub proof fn lemma_set_then_get(m: StoreV, k: Seq<char>, v: Seq<char>, x: Seq<char>)
    requires
        !is_blank_v(k),
    ensures
        step(m, Op::SetOp, k, v).1 == Ok::<Seq<char>, ErrV>(v),
        ({
            let m1 = step(m, Op::SetOp, k, v).0;
            step(m1, Op::Get, k, x).1 == Ok::<Seq<char>, ErrV>(v)
        }),
{
}

/// Last writer wins: `set(k, v1)` then `set(k, v2)` leaves `v2` as the
/// value a `get(k)` returns.
pub proof fn lemma_set_twice(m: StoreV, k: Seq<char>, v1: Seq<char>, v2: Seq<char>, x: Seq<char>)
    requires
        !is_blank_v(k),
    ensures
        ({
            let m1 = step(m, Op::SetOp, k, v1).0;
            let m2 = step(m1, Op::SetOp, k, v2).0;
            step(m2, Op::Get, k, x).1 == Ok::<Seq<char>, ErrV>(v2)
        }),
{
}

/// `del(k)` after `set(k, v)` succeeds, and a subsequent `get(k)` fails
/// with `NotFound`.
pub proof fn lemma_set_del_get(m: StoreV, k: Seq<char>, v: Seq<char>, x: Seq<char>)
    requires
        !is_blank_v(k),
    ensures
        ({
            let m1 = step(m, Op::SetOp, k, v).0;
            let m2 = step(m1, Op::Del, k, x).0;
            &&& step(m1, Op::Del, k, x).1 == Ok::<Seq<char>, ErrV>(del_ack_v())
            &&& step(m2, Op::Get, k, x).1 == Err::<Seq<char>, ErrV>(ErrV::NotFound(k))
        }),
{
}

/// `ping` always succeeds with the constant acknowledgment and never
/// touches the store, whatever key or value argument is supplied — even a
/// blank one.
pub proof fn lemma_ping_total(m: StoreV, k: Seq<char>, v: Seq<char>)
    ensures
        step(m, Op::Ping, k, v).0 == m,
        step(m, Op::Ping, k, v).1 == Ok::<Seq<char>, ErrV>(ping_ack_v()),
{
}

/// Concurrent `set(k, v1)` and `set(k, v2)` from independent callers
/// serialize in one of the two orders; in either order the store afterwards
/// maps `k` to exactly one of the two written values — never a mixture —
/// and no other key is disturbed.
pub proof fn lemma_concurrent_set(m: StoreV, k: Seq<char>, v1: Seq<char>, v2: Seq<char>)
    requires
        !is_blank_v(k),
    ensures
        ({
            let first = step(step(m, Op::SetOp, k, v1).0, Op::SetOp, k, v2).0;
            let second = step(step(m, Op::SetOp, k, v2).0, Op::SetOp, k, v1).0;
            &&& first.contains_key(k) && first[k] == v2
            &&& second.contains_key(k) && second[k] == v1
            &&& first[k] == v1 || first[k] == v2
            &&& second[k] == v1 || second[k] == v2
            &&& forall|k2: Seq<char>|
                #![auto]
                k2 != k ==> (first.contains_key(k2) <==> m.contains_key(k2)) && (
                first.contains_key(k2) ==> first[k2] == m[k2])
            &&& forall|k2: Seq<char>|
                #![auto]
                k2 != k ==> (second.contains_key(k2) <==> m.contains_key(k2)) && (
                second.contains_key(k2) ==> second[k2] == m[k2])
        }),
{
}

/// `set` is idempotent: repeating the same `set(k, v)` yields the same
/// stored state as performing it once.
pub proof fn lemma_set_idempotent(m: StoreV, k: Seq<char>, v: Seq<char>)
    requires
        !is_blank_v(k),
    ensures
        step(step(m, Op::SetOp, k, v).0, Op::SetOp, k, v).0 =~= step(m, Op::SetOp, k, v).0,
{
}

/// `ping` and `get` are side-effect-free: neither changes the store, on any
/// arguments whatsoever.
pub proof fn lemma_reads_are_pure(m: StoreV, k: Seq<char>, v: Seq<char>)
    ensures
        step(m, Op::Ping, k, v).0 == m,
        step(m, Op::Get, k, v).0 == m,
{
}

/// An unknown op code reaching the dispatcher is rejected as an invalid
/// request and leaves the store unchanged — it is never silently treated as
/// one of the four known ops.
pub proof fn lemma_unknown_op(m: StoreV, r: ReqV)
    requires
        parse_op_spec(r.op) is None,
    ensures
        dispatch_spec(m, r).0 == m,
        dispatch_spec(m, r).1 == Err::<Seq<char>, ErrV>(ErrV::InvalidRequest),
{
}

} // verus!
