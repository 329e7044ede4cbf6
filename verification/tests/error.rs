use lunu::error::{AppError, Status};
use serde_json::Value;

#[test]
fn each_status_has_its_code() {
    assert_eq!(Status::BadRequest.code(), 400);
    assert_eq!(Status::Forbidden.code(), 403);
    assert_eq!(Status::NotFound.code(), 404);
    assert_eq!(Status::Timeout.code(), 408);
    assert_eq!(Status::Internal.code(), 500);
}

#[test]
fn an_error_keeps_status_and_message() {
    let e = AppError::new(Status::NotFound, "Module not found");
    assert_eq!(e.status, Status::NotFound);
    assert_eq!(e.message, "Module not found");
}

#[test]
fn the_body_holds_the_message_as_detail() {
    let e = AppError::new(Status::Timeout, "Worker timeout");
    let expected: Value = serde_json::from_str(r#"{"detail":"Worker timeout"}"#).unwrap();
    assert_eq!(e.body(), expected);
    let e = AppError::new(Status::Internal, "say \"hi\"\n");
    assert_eq!(e.body().get("detail").and_then(|v| v.as_str()), Some("say \"hi\"\n"));
    assert_eq!(e.body().as_object().unwrap().len(), 1);
}
