use bitcommweb::jsonrpc::{
    call_json_rpc_handler, error_response, AddJsonRpcHandler, JsonRequest, JsonValue,
    MethodRegistry, RpcResult, INVALID_PARAMS_CODE, METHOD_NOT_FOUND_CODE,
};
use bitcommweb::strmap::StrMap;
use bitcommweb::webserver::get_adminserver_port;

fn add_request(a: JsonValue, b: JsonValue, id: JsonValue) -> JsonRequest {
    let mut params: StrMap<JsonValue> = StrMap::new();
    params.insert("a".to_string(), a);
    params.insert("b".to_string(), b);
    JsonRequest {
        jsonrpc: "2.0".to_string(),
        method: "add".to_string(),
        params: Some(params),
        id,
    }
}

fn add_registry() -> MethodRegistry<AddJsonRpcHandler> {
    let mut registry = MethodRegistry::new();
    registry.register("add".to_string(), AddJsonRpcHandler);
    registry
}

#[test]
fn add_request_yields_sum() {
    let registry = add_registry();
    let req = add_request(JsonValue::Int(2), JsonValue::Int(3), JsonValue::Int(1));
    let resp = call_json_rpc_handler(&registry, req);
    assert_eq!(resp.jsonrpc, "2.0");
    assert!(matches!(resp.result, RpcResult::Value(JsonValue::Int(5))));
    assert!(matches!(resp.id, JsonValue::Int(1)));
}

#[test]
fn add_request_with_non_integer_params_yields_error() {
    let registry = add_registry();
    let req = add_request(
        JsonValue::Str("two".to_string()),
        JsonValue::Int(3),
        JsonValue::Int(4),
    );
    let resp = call_json_rpc_handler(&registry, req);
    match resp.result {
        RpcResult::Error { code, message } => {
            assert_eq!(code, INVALID_PARAMS_CODE);
            assert_eq!(message, "Invalid params");
        },
        _ => panic!("expected an error result"),
    }
    assert!(matches!(resp.id, JsonValue::Int(4)));
}

#[test]
fn add_request_without_params_yields_error() {
    let registry = add_registry();
    let req = JsonRequest {
        jsonrpc: "2.0".to_string(),
        method: "add".to_string(),
        params: None,
        id: JsonValue::Null,
    };
    let resp = call_json_rpc_handler(&registry, req);
    assert!(matches!(
        resp.result,
        RpcResult::Error { code: INVALID_PARAMS_CODE, .. }
    ));
}

#[test]
fn add_request_whose_sum_overflows_yields_error() {
    let registry = add_registry();
    let req = add_request(
        JsonValue::Int(i64::MAX),
        JsonValue::Int(1),
        JsonValue::Int(9),
    );
    let resp = call_json_rpc_handler(&registry, req);
    assert!(matches!(
        resp.result,
        RpcResult::Error { code: INVALID_PARAMS_CODE, .. }
    ));
    assert!(matches!(resp.id, JsonValue::Int(9)));
}

#[test]
fn unregistered_method_yields_method_not_found() {
    let registry = add_registry();
    let req = JsonRequest {
        jsonrpc: "2.0".to_string(),
        method: "subtract".to_string(),
        params: None,
        id: JsonValue::Int(7),
    };
    let resp = call_json_rpc_handler(&registry, req);
    assert_eq!(resp.jsonrpc, "2.0");
    match resp.result {
        RpcResult::Error { code, message } => {
            assert_eq!(code, METHOD_NOT_FOUND_CODE);
            assert_eq!(message, "Method not found");
        },
        _ => panic!("expected an error result"),
    }
    assert!(matches!(resp.id, JsonValue::Int(7)));
}

#[test]
fn error_response_echoes_version_and_id() {
    let resp = error_response("2.0".to_string(), JsonValue::Str("abc".to_string()));
    assert_eq!(resp.jsonrpc, "2.0");
    match resp.result {
        RpcResult::Error { code, message } => {
            assert_eq!(code, METHOD_NOT_FOUND_CODE);
            assert_eq!(message, "Method not found");
        },
        _ => panic!("expected an error result"),
    }
    match resp.id {
        JsonValue::Str(s) => assert_eq!(s, "abc"),
        _ => panic!("expected the identifier echoed"),
    }
}

#[test]
fn adminserver_address_is_fixed() {
    assert_eq!(get_adminserver_port(), "0.0.0.0:1220");
}
