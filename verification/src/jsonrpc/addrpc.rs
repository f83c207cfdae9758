//! The arithmetic handler: answers `add` requests with the sum of the two
//! integer parameters `a` and `b`.

use vstd::prelude::*;
use crate::strmap::StrMap;
use super::{
    is_error_response, JsonRequest, JsonResponseWrapper, JsonRpcHandle, JsonValue, RpcResult,
    INVALID_PARAMS_CODE,
};

verus! {

/// The two summands of an `add` request, when its parameter table binds
/// both `a` and `b` to integers.
pub open spec fn add_args(req: JsonRequest) -> Option<(i64, i64)> {
    match req.params {
        Some(p) => if p@.contains_key("a"@) && p@.contains_key("b"@) {
            match (p@["a"@], p@["b"@]) {
                (JsonValue::Int(a), JsonValue::Int(b)) => Some((a, b)),
                _ => None,
            }
        } else {
            None
        },
        None => None,
    }
}

/// Handles the `add` method.
pub struct AddJsonRpcHandler;

impl JsonRpcHandle for AddJsonRpcHandler {
    /// The response holds the sum of the request's two integer parameters;
    /// a request without them, or whose sum leaves the integer range, is
    /// answered with the invalid-params error, identifier echoed.
    open spec fn handles(&self, req: JsonRequest, r: JsonResponseWrapper) -> bool {
        match add_args(req) {
            Some((a, b)) => if i64::MIN <= a + b <= i64::MAX {
                &&& r.jsonrpc == req.jsonrpc
                &&& r.id == req.id
                &&& r.result == RpcResult::Value(JsonValue::Int((a + b) as i64))
            } else {
                is_error_response(r, req.jsonrpc, req.id, INVALID_PARAMS_CODE, "Invalid params"@)
            },
            None => is_error_response(
                r,
                req.jsonrpc,
                req.id,
                INVALID_PARAMS_CODE,
                "Invalid params"@,
            ),
        }
    }

    fn json_rpc_handle(&self, req: JsonRequest) -> (r: JsonResponseWrapper)
        ensures
            self.handles(req, r),
    {
        let JsonRequest { jsonrpc, method: _, params, id } = req;
        match &params {
            Some(p) => {
                let key_a = String::from_str("a");
                let key_b = String::from_str("b");
                match (p.get(&key_a), p.get(&key_b)) {
                    (Some(JsonValue::Int(a)), Some(JsonValue::Int(b))) => {
                        match a.checked_add(*b) {
                            Some(sum) => JsonResponseWrapper {
                                jsonrpc,
                                result: RpcResult::Value(JsonValue::Int(sum)),
                                id,
                            },
                            None => invalid_params_response(jsonrpc, id),
                        }
                    },
                    _ => invalid_params_response(jsonrpc, id),
                }
            },
            None => invalid_params_response(jsonrpc, id),
        }
    }
}

/// The response to a request whose parameters are missing, of the wrong
/// shape, or whose result cannot be represented.
fn invalid_params_response(jsonrpc: String, id: JsonValue) -> (r: JsonResponseWrapper)
    ensures
        is_error_response(r, jsonrpc, id, INVALID_PARAMS_CODE, "Invalid params"@),
{
    JsonResponseWrapper {
        jsonrpc,
        result: RpcResult::Error {
            code: INVALID_PARAMS_CODE,
            message: String::from_str("Invalid params"),
        },
        id,
    }
}

} // verus!
