//! The wire-facing protocol types — request, response, error — and the
//! executable counterparts of the model's spec functions: op-code parsing
//! and the blank-field test.

use crate::model::{is_blank_v, is_space_char, parse_op_spec, ErrV, Op, ReqV};
use vstd::prelude::*;

verus! {

use vstd::string::StrSliceExecFns;
use vstd::string::StringExecFns;

/// A protocol request. The wire format requires all three fields to be
/// present; which of `key` and `val` are meaningful depends on `op`, and the
/// unused ones conventionally carry a whitespace placeholder.
#[derive(Clone, Debug)]
pub struct Request {
    pub op: String,
    pub key: String,
    pub val: String,
}

impl View for Request {
    type V = ReqV;

    open spec fn view(&self) -> ReqV {
        ReqV { op: self.op@, key: self.key@, val: self.val@ }
    }
}

/// A protocol response: a single text result.
#[derive(Clone, Debug)]
pub struct Response {
    pub val: String,
}

impl View for Response {
    type V = Seq<char>;

    open spec fn view(&self) -> Seq<char> {
        self.val@
    }
}

/// A structured protocol error, as the model's `ErrV` describes it.
#[derive(Clone, Debug)]
pub enum RpcError {
    /// The key was absent on `get` or `del`; carries that key.
    NotFound { key: String },
    /// Unrecognized op code, or a required field was blank.
    InvalidRequest,
    /// The remote call could not complete. Produced by the call layer, never
    /// by the dispatcher.
    TransportFailure,
}

impl View for RpcError {
    type V = ErrV;

    open spec fn view(&self) -> ErrV {
        match self {
            RpcError::NotFound { key } => ErrV::NotFound(key@),
            RpcError::InvalidRequest => ErrV::InvalidRequest,
            RpcError::TransportFailure => ErrV::TransportFailure,
        }
    }
}

/// The error text that accompanies an error on the wire or in an HTTP body.
pub open spec fn err_text_v(e: ErrV) -> Seq<char> {
    match e {
        ErrV::NotFound(k) => "key not found: "@ + k,
        ErrV::InvalidRequest => "invalid request"@,
        ErrV::TransportFailure => "transport failure"@,
    }
}

/// The view of a dispatch outcome: response and error are both replaced by
/// their abstract values.
pub open spec fn res_view(r: Result<Response, RpcError>) -> Result<Seq<char>, ErrV> {
    match r {
        Ok(resp) => Ok(resp@),
        Err(e) => Err(e@),
    }
}

impl RpcError {
    /// Renders the error as the text that `err_text_v` prescribes.
    pub fn describe(&self) -> (r: String)
        ensures
            r@ == err_text_v(self@),
    {
        match self {
            RpcError::NotFound { key } => "key not found: ".to_owned().concat(key.as_str()),
            RpcError::InvalidRequest => "invalid request".to_owned(),
            RpcError::TransportFailure => "transport failure".to_owned(),
        }
    }
}

/// Parses the op code string into the op it denotes, or `None` for any
/// unrecognized spelling.
pub fn parse_op(op: &String) -> (r: Option<Op>)
    ensures
        r == parse_op_spec(op@),
{
    if *op == "ping".to_owned() {
        Some(Op::Ping)
    } else if *op == "get".to_owned() {
        Some(Op::Get)
    } else if *op == "set".to_owned() {
        Some(Op::SetOp)
    } else if *op == "del".to_owned() {
        Some(Op::Del)
    } else {
        None
    }
}

/// Reports whether a field is blank — empty or all whitespace — and so
/// counts as absent in the semantic sense.
pub fn is_blank(s: &String) -> (r: bool)
    ensures
        r == is_blank_v(s@),
{
    let text = s.as_str();
    let n = text.unicode_len();
    let mut i: usize = 0;
    while i < n
        invariant
            0 <= i <= n,
            n == text@.len(),
            text@ == s@,
            forall|j: int| 0 <= j < i ==> is_space_char(s@[j]),
        decreases n - i,
    {
        let c = text.get_char(i);
        if !(c == ' ' || c == '\t' || c == '\n' || c == '\r') {
            assert(!is_space_char(s@[i as int]));
            return false;
        }
        i = i + 1;
    }
    true
}

} // verus!
