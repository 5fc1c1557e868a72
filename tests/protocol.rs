use boxed_agent::codec::{decimal_text, encode_event, encode_request, encode_response};
use boxed_agent::protocol::{Request, Response, StreamEvent, INVALID_PARAMS, METHOD_NOT_FOUND};
use serde_json::Value;

fn json(text: &str) -> Value {
    serde_json::from_str(text).unwrap()
}

#[test]
fn test_request_serialization() {
    let request = Request {
        jsonrpc: "2.0".to_string(),
        method: "exec".to_string(),
        params: json(r#"{"cmd":"python3","args":["-c","print('hello')"]}"#),
        id: Some(Value::from(1)),
    };
    let json = encode_request(&request);
    assert!(json.contains("\"jsonrpc\":\"2.0\""));
    assert!(json.contains("\"method\":\"exec\""));
}

#[test]
fn test_response_success() {
    let response = Response::success(Value::from(1), json(r#"{"status":"ok"}"#));
    assert!(response.result.is_some());
    assert!(response.error.is_none());
}

#[test]
fn test_response_error() {
    let response = Response::error(Value::from(1), METHOD_NOT_FOUND, "Method not found");
    assert!(response.result.is_none());
    assert!(response.error.is_some());
    assert_eq!(response.error.unwrap().code, METHOD_NOT_FOUND);
}

#[test]
fn error_codes_are_the_standard_ones() {
    assert_eq!(METHOD_NOT_FOUND, -32601);
    assert_eq!(INVALID_PARAMS, -32602);
}

#[test]
fn notification_has_no_id_and_encodes_without_one() {
    let n = Request::notification("stdout", json(r#"{"chunk":"x"}"#));
    assert_eq!(n.jsonrpc, "2.0");
    assert_eq!(n.method, "stdout");
    assert!(n.id.is_none());
    assert_eq!(
        encode_request(&n),
        "{\"jsonrpc\":\"2.0\",\"method\":\"stdout\",\"params\":{\"chunk\":\"x\"}}\n"
    );
}

#[test]
fn request_line_with_id_round_trips_through_serde() {
    let request = Request {
        jsonrpc: "2.0".to_string(),
        method: "repl.input".to_string(),
        params: json(r#"{"data":"1+1\n"}"#),
        id: Some(Value::from("abc")),
    };
    let line = encode_request(&request);
    assert!(line.ends_with('\n'));
    let back: Value = serde_json::from_str(line.trim_end()).unwrap();
    assert_eq!(back["method"], "repl.input");
    assert_eq!(back["params"]["data"], "1+1\n");
    assert_eq!(back["id"], "abc");
}

#[test]
fn ack_response_line_is_exact() {
    let response = Response::success(Value::from(1), Value::Null);
    assert_eq!(encode_response(&response), "{\"jsonrpc\":\"2.0\",\"result\":null,\"id\":1}\n");
}

#[test]
fn error_response_line_is_exact() {
    let response = Response::error(Value::from(2), METHOD_NOT_FOUND, "Method not found");
    assert_eq!(
        encode_response(&response),
        "{\"jsonrpc\":\"2.0\",\"error\":{\"code\":-32601,\"message\":\"Method not found\"},\"id\":2}\n"
    );
}

#[test]
fn error_response_with_data_line() {
    let mut response = Response::error(Value::from(3), INVALID_PARAMS, "bad");
    if let Some(e) = response.error.as_mut() {
        e.data = Some(json(r#"{"k":[1,2]}"#));
    }
    assert_eq!(
        encode_response(&response),
        "{\"jsonrpc\":\"2.0\",\"error\":{\"code\":-32602,\"message\":\"bad\",\"data\":{\"k\":[1,2]}},\"id\":3}\n"
    );
}

#[test]
fn every_event_has_its_fixed_method_name() {
    let events = vec![
        (StreamEvent::Stdout { chunk: String::new() }, "stdout"),
        (StreamEvent::Stderr { chunk: String::new() }, "stderr"),
        (StreamEvent::Exit { code: 0 }, "exit"),
        (StreamEvent::Artifact { path: String::new(), mime: String::new(), data_base64: String::new() }, "artifact"),
        (StreamEvent::Error { message: String::new() }, "error"),
    ];
    for (event, name) in events {
        assert_eq!(event.method_name(), name);
    }
}

#[test]
fn stdout_event_line_is_exact_and_escaped() {
    let line = encode_event(&StreamEvent::Stdout { chunk: "hi \"there\"\n".to_string() });
    assert_eq!(
        line,
        "{\"jsonrpc\":\"2.0\",\"method\":\"stdout\",\"params\":{\"chunk\":\"hi \\\"there\\\"\\n\"}}\n"
    );
    let back: Value = serde_json::from_str(line.trim_end()).unwrap();
    assert_eq!(back["params"]["chunk"], "hi \"there\"\n");
    assert!(back.get("id").is_none());
}

#[test]
fn exit_event_lines_carry_the_code() {
    assert_eq!(
        encode_event(&StreamEvent::Exit { code: 0 }),
        "{\"jsonrpc\":\"2.0\",\"method\":\"exit\",\"params\":{\"code\":0}}\n"
    );
    assert_eq!(
        encode_event(&StreamEvent::Exit { code: -1 }),
        "{\"jsonrpc\":\"2.0\",\"method\":\"exit\",\"params\":{\"code\":-1}}\n"
    );
    assert_eq!(
        encode_event(&StreamEvent::Exit { code: 137 }),
        "{\"jsonrpc\":\"2.0\",\"method\":\"exit\",\"params\":{\"code\":137}}\n"
    );
}

#[test]
fn artifact_and_error_event_lines() {
    let line = encode_event(&StreamEvent::Artifact {
        path: "a/b.txt".to_string(),
        mime: "text/plain".to_string(),
        data_base64: "aGk=".to_string(),
    });
    assert_eq!(
        line,
        "{\"jsonrpc\":\"2.0\",\"method\":\"artifact\",\"params\":{\"data\":\"aGk=\",\"mime\":\"text/plain\",\"path\":\"a/b.txt\"}}\n"
    );
    let line = encode_event(&StreamEvent::Error { message: "boom".to_string() });
    assert_eq!(line, "{\"jsonrpc\":\"2.0\",\"method\":\"error\",\"params\":{\"message\":\"boom\"}}\n");
}

#[test]
fn decimal_text_matches_std_formatting() {
    for n in [0, 7, 10, 99, 100, 12345, -1, -10, -32601, i32::MAX, i32::MIN] {
        assert_eq!(decimal_text(n), n.to_string());
    }
}

#[test]
fn control_characters_are_escaped_as_serde_json_does() {
    let line = encode_event(&StreamEvent::Stderr { chunk: "a\u{1}\t\u{8}\u{c}\r\\\u{1f}\u{7f}é".to_string() });
    assert_eq!(
        line,
        "{\"jsonrpc\":\"2.0\",\"method\":\"stderr\",\"params\":{\"chunk\":\"a\\u0001\\t\\b\\f\\r\\\\\\u001f\u{7f}é\"}}\n"
    );
}

#[test]
fn every_line_ends_with_its_only_newline() {
    let event = encode_event(&StreamEvent::Error { message: "one\ntwo\n".to_string() });
    assert_eq!(event.matches('\n').count(), 1);
    assert!(event.ends_with('\n'));
    let response = encode_response(&Response::success(Value::from("x\ny"), json(r#"{"text":"a\nb"}"#)));
    assert_eq!(response.matches('\n').count(), 1);
    assert!(response.ends_with('\n'));
    let request = encode_request(&Request::notification("stdout", json(r#"{"chunk":"\n"}"#)));
    assert_eq!(request.matches('\n').count(), 1);
}

#[test]
fn response_line_parses_back_to_the_response() {
    let response = Response::error(Value::from("req-1"), INVALID_PARAMS, "bad \"params\"");
    let back: Value = serde_json::from_str(encode_response(&response).trim_end()).unwrap();
    assert_eq!(back["jsonrpc"], "2.0");
    assert_eq!(back["id"], "req-1");
    assert_eq!(back["error"]["code"], INVALID_PARAMS);
    assert_eq!(back["error"]["message"], "bad \"params\"");
    assert!(back.get("result").is_none());
    assert!(back["error"].get("data").is_none());
}
