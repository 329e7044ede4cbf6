use lunu::error::Status;
use lunu::wire::{
    call_args, decode_line, decode_value, deserialize_args, frame_request,
    parse_worker_response, request_line, request_value, response_id, value_to_string,
};
use serde_json::Value;

fn json(text: &str) -> Value {
    serde_json::from_str(text).unwrap()
}

#[test]
fn response_id_reads_a_string_identifier() {
    assert_eq!(response_id(&json(r#"{"id":"abc","result":1}"#)), Some("abc".to_string()));
    assert_eq!(response_id(&json(r#"{"id":""}"#)), Some(String::new()));
}

#[test]
fn response_id_prints_a_number_identifier() {
    assert_eq!(response_id(&json(r#"{"id":42}"#)), Some("42".to_string()));
    assert_eq!(response_id(&json(r#"{"id":-7}"#)), Some("-7".to_string()));
    assert_eq!(response_id(&json(r#"{"id":1.5}"#)), Some("1.5".to_string()));
}

#[test]
fn response_id_is_missing_for_other_shapes() {
    assert_eq!(response_id(&json(r#"{"result":1}"#)), None);
    assert_eq!(response_id(&json(r#"{"id":null}"#)), None);
    assert_eq!(response_id(&json(r#"{"id":true}"#)), None);
    assert_eq!(response_id(&json(r#"{"id":["a"]}"#)), None);
    assert_eq!(response_id(&json(r#"{"id":{"a":1}}"#)), None);
    assert_eq!(response_id(&json(r#"["id","abc"]"#)), None);
    assert_eq!(response_id(&json(r#""id""#)), None);
    assert_eq!(response_id(&json("null")), None);
}

#[test]
fn parse_worker_response_takes_the_result() {
    let got = parse_worker_response(json(r#"{"id":"a","result":{"n":[1,2]}}"#));
    assert_eq!(got.ok(), Some(json(r#"{"n":[1,2]}"#)));
    let got = parse_worker_response(json(r#"{"id":"a","result":"text"}"#));
    assert_eq!(got.ok(), Some(Value::String("text".to_string())));
}

#[test]
fn parse_worker_response_defaults_a_missing_result_to_null() {
    let got = parse_worker_response(json(r#"{"id":"a"}"#));
    assert_eq!(got.ok(), Some(Value::Null));
    let got = parse_worker_response(json("[1,2]"));
    assert_eq!(got.ok(), Some(Value::Null));
}

#[test]
fn parse_worker_response_reads_a_failure() {
    let got = parse_worker_response(json(
        r#"{"id":"a","error":{"code":"bad_input","message":"no such file"}}"#,
    ));
    let err = got.err().unwrap();
    assert_eq!(err.code, "bad_input");
    assert_eq!(err.message, "no such file");
}

#[test]
fn parse_worker_response_prefers_the_failure_over_a_result() {
    let got = parse_worker_response(json(
        r#"{"id":"a","result":5,"error":{"code":"c","message":"m"}}"#,
    ));
    let err = got.err().unwrap();
    assert_eq!(err.code, "c");
    assert_eq!(err.message, "m");
}

#[test]
fn parse_worker_response_defaults_a_malformed_failure() {
    for text in [
        r#"{"id":"a","error":"boom"}"#,
        r#"{"id":"a","error":null}"#,
        r#"{"id":"a","error":{}}"#,
        r#"{"id":"a","error":{"code":7,"message":["x"]}}"#,
    ] {
        let err = parse_worker_response(json(text)).err().unwrap();
        assert_eq!(err.code, "worker_error");
        assert_eq!(err.message, "Worker error");
    }
    let err = parse_worker_response(json(r#"{"error":{"code":"only_code"}}"#)).err().unwrap();
    assert_eq!(err.code, "only_code");
    assert_eq!(err.message, "Worker error");
    let err = parse_worker_response(json(r#"{"error":{"message":"only message"}}"#))
        .err()
        .unwrap();
    assert_eq!(err.code, "worker_error");
    assert_eq!(err.message, "only message");
}

#[test]
fn decode_value_needs_an_identifier() {
    assert!(decode_value(json(r#"{"result":1}"#)).is_none());
    let reply = decode_value(json(r#"{"id":3,"result":"ok"}"#)).unwrap();
    assert_eq!(reply.id, "3");
    assert_eq!(reply.outcome.ok(), Some(Value::String("ok".to_string())));
}

#[test]
fn decode_line_skips_what_is_no_reply() {
    assert!(decode_line("").is_none());
    assert!(decode_line("   ").is_none());
    assert!(decode_line("not json at all").is_none());
    assert!(decode_line(r#"{"id":"a","result":"#).is_none());
    assert!(decode_line(r#"{"result":1}"#).is_none());
    assert!(decode_line("123").is_none());
}

#[test]
fn decode_line_reads_a_reply() {
    let reply = decode_line(r#"  {"id":"9f","result":[1,"two",null]}  "#).unwrap();
    assert_eq!(reply.id, "9f");
    assert_eq!(reply.outcome.ok(), Some(json(r#"[1,"two",null]"#)));
    let reply = decode_line(r#"{"id":"9f","error":{"code":"e","message":"failed"}}"#).unwrap();
    assert_eq!(reply.id, "9f");
    assert_eq!(reply.outcome.err().unwrap().message, "failed");
}

#[test]
fn request_value_has_the_three_members() {
    let params = vec![Value::String("x".to_string()), json("1"), json(r#"{"k":null}"#)];
    let request = request_value("abc", "echo", params);
    assert_eq!(request, json(r#"{"id":"abc","method":"echo","params":["x",1,{"k":null}]}"#));
    assert_eq!(request.as_object().unwrap().len(), 3);
}

#[test]
fn request_line_is_one_line_of_json() {
    let params = vec![Value::String("x".to_string())];
    let line = request_line("00ff", "echo", params).ok().unwrap();
    assert_eq!(line, "{\"id\":\"00ff\",\"method\":\"echo\",\"params\":[\"x\"]}\n");
    let line = request_line("1", "m", Vec::new()).ok().unwrap();
    assert_eq!(line, "{\"id\":\"1\",\"method\":\"m\",\"params\":[]}\n");
    assert_eq!(line.matches('\n').count(), 1);
}

#[test]
fn request_line_escapes_line_feeds_in_arguments() {
    let params = vec![Value::String("two\nlines".to_string())];
    let line = request_line("1", "m", params).ok().unwrap();
    assert_eq!(line.matches('\n').count(), 1);
    assert!(line.ends_with('\n'));
    let back = decode_line(&line.replace("\"method\"", "\"result\""));
    assert_eq!(back.unwrap().id, "1");
}

#[test]
fn frame_request_adds_the_line_feed_or_fails() {
    assert_eq!(frame_request(Some("{}".to_string())).ok(), Some("{}\n".to_string()));
    let err = frame_request(None).err().unwrap();
    assert_eq!(err.status, Status::BadRequest);
    assert_eq!(err.message, "Invalid payload");
}

#[test]
fn arguments_come_from_arrays_objects_and_null() {
    assert_eq!(
        deserialize_args(&json(r#"["x",1]"#)).ok(),
        Some(vec![Value::String("x".to_string()), json("1")])
    );
    assert_eq!(deserialize_args(&json("[]")).ok(), Some(Vec::new()));
    assert_eq!(deserialize_args(&json("{}")).ok(), Some(Vec::new()));
    assert_eq!(deserialize_args(&json(r#"{"a":1}"#)).ok(), Some(Vec::new()));
    assert_eq!(deserialize_args(&json("null")).ok(), Some(Vec::new()));
    for text in ["1", "\"x\"", "true"] {
        let err = deserialize_args(&json(text)).err().unwrap();
        assert_eq!(err.status, Status::BadRequest);
        assert_eq!(err.message, "expected array or empty object");
    }
}

#[test]
fn a_body_gives_the_arguments_of_its_call() {
    assert_eq!(
        call_args(&json(r#"{"args":["x"]}"#)).ok(),
        Some(vec![Value::String("x".to_string())])
    );
    assert_eq!(call_args(&json("{}")).ok(), Some(Vec::new()));
    assert_eq!(call_args(&json(r#"{"other":[1]}"#)).ok(), Some(Vec::new()));
    assert_eq!(call_args(&json(r#"{"args":null}"#)).ok(), Some(Vec::new()));
    assert_eq!(call_args(&json(r#"{"args":{}}"#)).ok(), Some(Vec::new()));
    let err = call_args(&json(r#"{"args":"x"}"#)).err().unwrap();
    assert_eq!(err.status, Status::BadRequest);
    assert_eq!(err.message, "expected array or empty object");
    for text in ["[]", "null", "3", "\"args\""] {
        let err = call_args(&json(text)).err().unwrap();
        assert_eq!(err.status, Status::BadRequest);
        assert_eq!(err.message, "Invalid payload");
    }
}

#[test]
fn a_value_becomes_a_command_line_argument() {
    assert_eq!(value_to_string(&json(r#""plain text""#)), Some("plain text".to_string()));
    assert_eq!(value_to_string(&json("12")), Some("12".to_string()));
    assert_eq!(value_to_string(&json("true")), Some("true".to_string()));
    assert_eq!(value_to_string(&json("null")), Some("null".to_string()));
    assert_eq!(value_to_string(&json(r#"[1, "a"]"#)), Some("[1,\"a\"]".to_string()));
    assert_eq!(value_to_string(&json(r#"{"k": "v"}"#)), Some("{\"k\":\"v\"}".to_string()));
}

#[test]
fn a_request_is_always_written_as_one_line() {
    let tricky = vec![
        Value::String("a\nb\r\n".to_string()),
        json(r#"{"k\n": ["\n", {"deep": "\n\n"}], "n": 1.5e300}"#),
        Value::Null,
    ];
    let line = request_line("id\n1", "me\nthod", tricky).ok().unwrap();
    assert!(line.ends_with('\n'));
    assert_eq!(line.matches('\n').count(), 1);
    let back: Value = serde_json::from_str(line.trim_end()).unwrap();
    assert_eq!(back.get("id").and_then(|v| v.as_str()), Some("id\n1"));
    assert_eq!(back.get("method").and_then(|v| v.as_str()), Some("me\nthod"));
    assert_eq!(back.get("params").and_then(|v| v.as_array()).map(|a| a.len()), Some(3));
}
