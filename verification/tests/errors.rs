use oxprint_backend::errors::{AppError, ErrorKind};

fn all_kinds() -> Vec<ErrorKind> {
    vec![
        ErrorKind::Database,
        ErrorKind::Auth,
        ErrorKind::Validation,
        ErrorKind::NotFound,
        ErrorKind::Internal,
        ErrorKind::DeviceComm,
        ErrorKind::FileOperation,
        ErrorKind::Json,
        ErrorKind::Config,
    ]
}

#[test]
fn every_kind_has_its_status_and_message() {
    let expected: [(u16, &str); 9] = [
        (500, "Database error"),
        (401, "Authentication failed"),
        (400, "Validation error"),
        (404, "Resource not found"),
        (500, "Internal server error"),
        (503, "Device unavailable"),
        (500, "File operation failed"),
        (400, "Invalid JSON"),
        (500, "Configuration error"),
    ];
    for (kind, (status, message)) in all_kinds().into_iter().zip(expected) {
        assert_eq!(kind.status(), status);
        assert_eq!(kind.public_message(), message);
        let error = AppError::new(kind, "x".to_string());
        assert_eq!(error.kind(), kind);
        assert_eq!(error.detail(), "x");
    }
}

#[test]
fn description_is_heading_then_detail() {
    assert_eq!(AppError::Database("pool timed out".to_string()).to_string(), "Database error: pool timed out");
    assert_eq!(AppError::Auth("no token".to_string()).to_string(), "Authentication failed: no token");
    assert_eq!(AppError::Validation("bad".to_string()).to_string(), "Validation error: bad");
    assert_eq!(AppError::NotFound("job 7".to_string()).to_string(), "Resource not found: job 7");
    assert_eq!(AppError::Internal("oops".to_string()).to_string(), "Internal server error: oops");
    assert_eq!(AppError::DeviceComm("port busy".to_string()).to_string(), "Device communication error: port busy");
    assert_eq!(AppError::FileOperation("denied".to_string()).to_string(), "File operation error: denied");
    assert_eq!(AppError::Json("eof".to_string()).to_string(), "JSON parsing error: eof");
    assert_eq!(AppError::Config("missing".to_string()).to_string(), "Configuration error: missing");
    assert_eq!(AppError::Internal(String::new()).to_string(), "Internal server error: ");
}

#[test]
fn response_body_holds_message_detail_and_status() {
    for kind in all_kinds() {
        let error = AppError::new(kind, "disk \"full\"\n".to_string());
        let response = error.into_response();
        assert_eq!(response.status, kind.status());
        assert_eq!(response.content_type.as_deref(), Some("application/json"));
        assert_eq!(response.cache_control, None);
        let body: serde_json::Value = serde_json::from_slice(&response.body).unwrap();
        let object = body.as_object().unwrap();
        assert_eq!(object.len(), 3);
        assert_eq!(object["error"].as_str(), Some(kind.public_message()));
        assert_eq!(object["details"].as_str(), Some(error.to_string().as_str()));
        assert_eq!(object["status"].as_u64(), Some(kind.status() as u64));
    }
}

#[test]
fn response_body_is_compact_json() {
    let response = AppError::NotFound("job 7".to_string()).into_response();
    assert_eq!(response.status, 404);
    assert_eq!(
        String::from_utf8(response.body).unwrap(),
        "{\"details\":\"Resource not found: job 7\",\"error\":\"Resource not found\",\"status\":404}"
    );
}
