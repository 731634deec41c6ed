use eth_alive::hex::ParseError;
use eth_alive::rpc::{
    interpret_parsed_response, interpret_reply, interpret_response, reply_of, RpcError, RpcReply, BLOCK_NUMBER_REQUEST,
    MISSING_RESULT, NOT_JSON, UNKNOWN_RPC_ERROR,
};

fn json(text: &str) -> serde_json::Value {
    serde_json::from_str(text).unwrap()
}

fn reply(error: Option<Option<&str>>, result: Option<&str>) -> RpcReply {
    RpcReply {
        error: error.map(|m| m.map(|s| s.to_string())),
        result: result.map(|s| s.to_string()),
    }
}

#[test]
fn reply_with_result_decodes_height() {
    let r = interpret_reply(&reply(None, Some("0x10a")));
    assert!(matches!(r, Ok(266)));
}

#[test]
fn reply_error_message_is_kept() {
    let r = interpret_reply(&reply(Some(Some("header not found")), Some("0x1")));
    match r {
        Err(RpcError::Protocol { message }) => assert_eq!(message, "header not found"),
        other => panic!("unexpected {:?}", other),
    }
}

#[test]
fn reply_error_without_message_uses_fallback() {
    let r = interpret_reply(&reply(Some(None), None));
    match r {
        Err(RpcError::Protocol { message }) => {
            assert_eq!(message, UNKNOWN_RPC_ERROR);
            assert_eq!(message, "Unknown RPC error");
        }
        other => panic!("unexpected {:?}", other),
    }
}

#[test]
fn reply_without_result_is_malformed() {
    match interpret_reply(&reply(None, None)) {
        Err(RpcError::MalformedBody { detail }) => assert_eq!(detail, MISSING_RESULT),
        other => panic!("unexpected {:?}", other),
    }
}

#[test]
fn reply_with_bad_hex_is_hex_error() {
    let r = interpret_reply(&reply(None, Some("0xZZZ")));
    assert!(matches!(
        r,
        Err(RpcError::HexDecode { error: ParseError::InvalidDigit })
    ));
}

#[test]
fn response_status_outside_success_range() {
    let body = Some(json(r#"{"jsonrpc":"2.0","id":1,"result":"0x1"}"#));
    assert!(matches!(
        interpret_parsed_response(503, &body),
        Err(RpcError::HttpStatus { status: 503 })
    ));
    assert!(matches!(
        interpret_parsed_response(302, &body),
        Err(RpcError::HttpStatus { status: 302 })
    ));
    assert!(matches!(interpret_parsed_response(200, &body), Ok(1)));
    assert!(matches!(interpret_parsed_response(299, &body), Ok(1)));
}

#[test]
fn response_body_not_json() {
    match interpret_parsed_response(200, &None) {
        Err(RpcError::MalformedBody { detail }) => assert_eq!(detail, NOT_JSON),
        other => panic!("unexpected {:?}", other),
    }
}

#[test]
fn reply_of_reads_members() {
    let r = reply_of(&json(r#"{"jsonrpc":"2.0","id":1,"result":"0x10a"}"#));
    assert_eq!(r.error, None);
    assert_eq!(r.result.as_deref(), Some("0x10a"));

    let r = reply_of(&json(r#"{"error":{"code":-32000,"message":"busy"}}"#));
    assert_eq!(r.error, Some(Some("busy".to_string())));
    assert_eq!(r.result, None);

    let r = reply_of(&json(r#"{"error":{"code":-32000},"result":7}"#));
    assert_eq!(r.error, Some(None));
    assert_eq!(r.result, None);

    let r = reply_of(&json(r#"["result"]"#));
    assert_eq!(r.error, None);
    assert_eq!(r.result, None);
}

#[test]
fn response_end_to_end_from_json() {
    let ok = Some(json(r#"{"jsonrpc":"2.0","id":1,"result":"0x12d687"}"#));
    assert!(matches!(interpret_parsed_response(200, &ok), Ok(1234567)));

    let protocol = Some(json(r#"{"jsonrpc":"2.0","id":1,"error":{"message":"method not found"}}"#));
    match interpret_parsed_response(200, &protocol) {
        Err(RpcError::Protocol { message }) => assert_eq!(message, "method not found"),
        other => panic!("unexpected {:?}", other),
    }

    let no_message = Some(json(r#"{"error":{"code":1}}"#));
    match interpret_parsed_response(200, &no_message) {
        Err(RpcError::Protocol { message }) => assert_eq!(message, UNKNOWN_RPC_ERROR),
        other => panic!("unexpected {:?}", other),
    }

    let numeric = Some(json(r#"{"result":266}"#));
    assert!(matches!(
        interpret_parsed_response(200, &numeric),
        Err(RpcError::MalformedBody { .. })
    ));

    let bad_hex = Some(json(r#"{"result":"0xZZZ"}"#));
    assert!(matches!(
        interpret_parsed_response(200, &bad_hex),
        Err(RpcError::HexDecode { error: ParseError::InvalidDigit })
    ));
}

#[test]
fn request_body_is_block_number_call() {
    let v = json(BLOCK_NUMBER_REQUEST);
    assert_eq!(v["jsonrpc"], "2.0");
    assert_eq!(v["method"], "eth_blockNumber");
    assert_eq!(v["id"], 1);
    assert!(v["params"].as_array().unwrap().is_empty());
}

#[test]
fn response_from_body_bytes() {
    let ok = br#"{"jsonrpc":"2.0","id":1,"result":"0x10a"}"#;
    assert!(matches!(interpret_response(200, ok), Ok(266)));
    assert!(matches!(
        interpret_response(500, ok),
        Err(RpcError::HttpStatus { status: 500 })
    ));
    match interpret_response(200, b"<html>bad gateway</html>") {
        Err(RpcError::MalformedBody { detail }) => assert_eq!(detail, NOT_JSON),
        other => panic!("unexpected {:?}", other),
    }
    match interpret_response(200, b"") {
        Err(RpcError::MalformedBody { detail }) => assert_eq!(detail, NOT_JSON),
        other => panic!("unexpected {:?}", other),
    }
    match interpret_response(200, br#"{"error":{"message":"rate limited"}}"#) {
        Err(RpcError::Protocol { message }) => assert_eq!(message, "rate limited"),
        other => panic!("unexpected {:?}", other),
    }
    match interpret_response(200, br#"{"id":1}"#) {
        Err(RpcError::MalformedBody { detail }) => assert_eq!(detail, MISSING_RESULT),
        other => panic!("unexpected {:?}", other),
    }
}
