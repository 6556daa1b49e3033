//! The mathematical model of the protocol: the op codes, the abstract store
//! state, and the dispatcher's semantics as a spec-level step function.

use vstd::prelude::*;

verus! {

/// The four operations that the single remote method multiplexes over.
#[derive(Clone, Copy, Debug)]
pub enum Op {
    Ping,
    Get,
    /// The `set` operation; `SetOp` because `Set` is a Verus prelude name.
    SetOp,
    Del,
}

/// Abstract view of a protocol request: the op code string and the two
/// argument fields. All three fields are always present on the wire; which
/// of `key` and `val` are meaningful depends on the op.
pub struct ReqV {
    pub op: Seq<char>,
    pub key: Seq<char>,
    pub val: Seq<char>,
}

/// Abstract view of a protocol error.
///
/// `NotFound` carries the key that was absent. `InvalidRequest` covers an
/// unrecognized op code and a missing (blank) required field.
/// `TransportFailure` is reserved for the call layer: the dispatcher itself
/// never produces it.
pub enum ErrV {
    NotFound(Seq<char>),
    InvalidRequest,
    TransportFailure,
}

/// The store's abstract state: a mapping from key to value, both text.
pub type StoreV = Map<Seq<char>, Seq<char>>;

/// The constant acknowledgment returned by `ping`.
pub open spec fn ping_ack_v() -> Seq<char> {
    "pong"@
}

/// The acknowledgment value returned by a successful `del`. Callers do not
/// use it; it only fills the response's value field.
pub open spec fn del_ack_v() -> Seq<char> {
    "deleted"@
}

/// A character that counts as padding in an argument field.
pub open spec fn is_space_char(c: char) -> bool {
    c == ' ' || c == '\t' || c == '\n' || c == '\r'
}

/// A field is blank when it is empty or all whitespace. The wire format
/// requires every field to be present, so unused fields carry a whitespace
/// placeholder; a blank key is therefore a missing key, never a real one.
pub open spec fn is_blank_v(s: Seq<char>) -> bool {
    forall|i: int| 0 <= i < s.len() ==> is_space_char(s[i])
}

/// Which op the request's op code string denotes, if any. The wire format
/// carries an open string; only these four spellings are meaningful.
pub open spec fn parse_op_spec(s: Seq<char>) -> Option<Op> {
    if s == "ping"@ {
        Some(Op::Ping)
    } else if s == "get"@ {
        Some(Op::Get)
    } else if s == "set"@ {
        Some(Op::SetOp)
    } else if s == "del"@ {
        Some(Op::Del)
    } else {
        None
    }
}

/// One dispatcher step on a recognized op: the store state after the call,
/// and the response value or the error.
///
/// `ping` ignores both arguments and always succeeds. The three keyed ops
/// reject a blank key as an invalid request before touching the store.
/// `del` of an absent key fails with `NotFound`, symmetrically to `get`.
pub open spec fn step(m: StoreV, op: Op, key: Seq<char>, val: Seq<char>) -> (StoreV, Result<
    Seq<char>,
    ErrV,
>) {
    match op {
        Op::Ping => (m, Ok(ping_ack_v())),
        Op::Get => if is_blank_v(key) {
            (m, Err(ErrV::InvalidRequest))
        } else if m.contains_key(key) {
            (m, Ok(m[key]))
        } else {
            (m, Err(ErrV::NotFound(key)))
        },
        Op::SetOp => if is_blank_v(key) {
            (m, Err(ErrV::InvalidRequest))
        } else {
            (m.insert(key, val), Ok(val))
        },
        Op::Del => if is_blank_v(key) {
            (m, Err(ErrV::InvalidRequest))
        } else if m.contains_key(key) {
            (m.remove(key), Ok(del_ack_v()))
        } else {
            (m, Err(ErrV::NotFound(key)))
        },
    }
}

/// The four op code spellings parse to their ops. String literals are
/// opaque until revealed, so callers that reason about a concrete op code
/// invoke this lemma rather than revealing the literals themselves.
pub proof fn lemma_op_codes()
    ensures
        parse_op_spec("ping"@) == Some(Op::Ping),
        parse_op_spec("get"@) == Some(Op::Get),
        parse_op_spec("set"@) == Some(Op::SetOp),
        parse_op_spec("del"@) == Some(Op::Del),
{
    reveal_strlit("ping");
    reveal_strlit("get");
    reveal_strlit("set");
    reveal_strlit("del");
    assert("ping"@.len() == 4);
    assert("get"@.len() == 3);
    assert("set"@.len() == 3);
    assert("del"@.len() == 3);
    assert("get"@[0] == 'g' && "set"@[0] == 's' && "del"@[0] == 'd');
}

/// Full dispatcher semantics on an arbitrary request: an unrecognized op
/// code is rejected as an invalid request and leaves the store unchanged;
/// it is never treated as one of the four known ops.
pub open spec fn dispatch_spec(m: StoreV, r: ReqV) -> (StoreV, Result<Seq<char>, ErrV>) {
    match parse_op_spec(r.op) {
        Some(op) => step(m, op, r.key, r.val),
        None => (m, Err(ErrV::InvalidRequest)),
    }
}

} // verus!
