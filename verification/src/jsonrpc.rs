//! The RPC method registry and dispatch protocol: request and response
//! envelopes, polymorphic handlers, and the lookup that ties them together.

mod addrpc;

use vstd::prelude::*;
use crate::strmap::StrMap;

pub use addrpc::AddJsonRpcHandler;

verus! {

/// The error code of a response to a request whose method is not registered.
pub const METHOD_NOT_FOUND_CODE: i64 = -32601;

/// The error code a handler answers with when the parameters it needs are
/// missing or of the wrong shape.
pub const INVALID_PARAMS_CODE: i64 = -32602;

/// A structured value carried in an envelope: what the core reads of a JSON
/// document. Handlers inspect scalars; values of any other shape are only
/// carried through and echoed.
pub enum JsonValue {
    Null,
    Bool(bool),
    Int(i64),
    Str(String),
    Arr(Vec<JsonValue>),
    Obj(Vec<(String, JsonValue)>),
}

/// The payload of a response: a result value, or an error object of a code
/// and a message.
pub enum RpcResult {
    Value(JsonValue),
    Error { code: i64, message: String },
}

/// A request envelope: protocol version tag, method name, parameter table,
/// and an identifier echoed back unchanged.
pub struct JsonRequest {
    pub jsonrpc: String,
    pub method: String,
    pub params: Option<StrMap<JsonValue>>,
    pub id: JsonValue,
}

/// A response envelope: the version tag and identifier of the request it
/// answers, and the result or error produced for it.
pub struct JsonResponseWrapper {
    pub jsonrpc: String,
    pub result: RpcResult,
    pub id: JsonValue,
}

/// Holds when `r` answers a request that carried `req_jsonrpc` and `req_id`
/// with the error `code` and `message`, echoing version tag and identifier.
pub open spec fn is_error_response(
    r: JsonResponseWrapper,
    req_jsonrpc: String,
    req_id: JsonValue,
    code: i64,
    message: Seq<char>,
) -> bool {
    &&& r.jsonrpc == req_jsonrpc
    &&& r.id == req_id
    &&& match r.result {
        RpcResult::Error { code: c, message: m } => c == code && m@ == message,
        _ => false,
    }
}

/// The response to a request whose method is not registered: the version
/// tag and identifier echoed, and the method-not-found error object.
pub fn error_response(jsonrpc: String, id: JsonValue) -> (r: JsonResponseWrapper)
    ensures
        is_error_response(r, jsonrpc, id, METHOD_NOT_FOUND_CODE, "Method not found"@),
{
    JsonResponseWrapper {
        jsonrpc,
        result: RpcResult::Error {
            code: METHOD_NOT_FOUND_CODE,
            message: String::from_str("Method not found"),
        },
        id,
    }
}

/// A handler: the single capability of producing a response envelope from a
/// request envelope.
pub trait JsonRpcHandle {
    /// What a response of this handler satisfies for a given request.
    spec fn handles(&self, req: JsonRequest, r: JsonResponseWrapper) -> bool;

    /// Produces the response envelope for `req`.
    fn json_rpc_handle(&self, req: JsonRequest) -> (r: JsonResponseWrapper)
        ensures
            self.handles(req, r),
    ;
}

/// Maps method names to handlers; registration overwrites a prior binding
/// of the same name.
pub struct MethodRegistry<H> {
    handlers: StrMap<H>,
}

impl<H> View for MethodRegistry<H> {
    type V = Map<Seq<char>, H>;

    closed spec fn view(&self) -> Map<Seq<char>, H> {
        self.handlers@
    }
}

impl<H> MethodRegistry<H> {
    /// A registry with no methods.
    pub fn new() -> (r: Self)
        ensures
            r@ == Map::<Seq<char>, H>::empty(),
    {
        MethodRegistry { handlers: StrMap::new() }
    }

    /// Binds `name` to `handler`; the last registration of a name wins.
    pub fn register(&mut self, name: String, handler: H)
        ensures
            final(self)@ == old(self)@.insert(name@, handler),
    {
        self.handlers.insert(name, handler);
    }

    /// The handler bound to `name`, if any: exactly the one registered last.
    pub fn resolve(&self, name: &String) -> (r: Option<&H>)
        ensures
            match r {
                Some(h) => self@.contains_key(name@) && *h == self@[name@],
                None => !self@.contains_key(name@),
            },
    {
        self.handlers.get(name)
    }
}

/// Law: after `register(name, h)`, the registry holds exactly `h` for
/// `name`, and a later registration of the same name replaces it.
pub proof fn lemma_register_last_write_wins<H>(
    m: Map<Seq<char>, H>,
    name: Seq<char>,
    h1: H,
    h2: H,
)
    ensures
        m.insert(name, h1).contains_key(name),
        m.insert(name, h1)[name] == h1,
        m.insert(name, h1).insert(name, h2)[name] == h2,
{
}

/// Dispatches a request: resolves its method and delegates to the handler
/// bound to it, or answers method-not-found with the request's version tag
/// and identifier echoed.
pub fn call_json_rpc_handler<H: JsonRpcHandle>(
    registry: &MethodRegistry<H>,
    req: JsonRequest,
) -> (r: JsonResponseWrapper)
    ensures
        registry@.contains_key(req.method@) ==> registry@[req.method@].handles(req, r),
        !registry@.contains_key(req.method@) ==> is_error_response(
            r,
            req.jsonrpc,
            req.id,
            METHOD_NOT_FOUND_CODE,
            "Method not found"@,
        ),
{
    match registry.resolve(&req.method) {
        Some(handler) => handler.json_rpc_handle(req),
        None => error_response(req.jsonrpc, req.id),
    }
}

} // verus!
