use qr_service::{default_size, qr, root, validate, Reply, ServiceError};

fn png_bytes(r: Reply) -> Vec<u8> {
    match r {
        Reply::Png { body } => body,
        Reply::Text { status, body } => {
            panic!("expected a PNG reply, got status {status}: {body}")
        }
    }
}

fn text_reply(r: Reply) -> (u16, String) {
    match r {
        Reply::Text { status, body } => (status, body),
        Reply::Png { .. } => panic!("expected a plaintext reply, got a PNG"),
    }
}

#[test]
fn main_test_default_size() {
    assert_eq!(default_size(), 200);
}

#[test]
fn test_qr_test_default_size() {
    assert_eq!(default_size(), 200);
}

#[test]
fn main_test_qr_query_deserialization() {
    let query = validate(Some("test data"), Some("300")).unwrap();
    assert_eq!(query.data, "test data");
    assert_eq!(query.size, 300);
}

#[test]
fn test_qr_test_qr_query_deserialization() {
    let query = validate(Some("test data"), Some("300")).unwrap();
    assert_eq!(query.data, "test data");
    assert_eq!(query.size, 300);
}

#[test]
fn main_test_qr_query_default_size() {
    let query = validate(Some("test data"), None).unwrap();
    assert_eq!(query.data, "test data");
    assert_eq!(query.size, 200);
}

#[test]
fn test_qr_test_qr_query_default_size() {
    let query = validate(Some("test data"), None).unwrap();
    assert_eq!(query.data, "test data");
    assert_eq!(query.size, 200);
}

#[test]
fn test_missing_data_parameter_raises_error() {
    let (status, body) = text_reply(qr(None, None));
    assert_eq!(status, 400);
    assert!(body.contains("missing field `data`"));
}

#[test]
fn test_successful_qr_generation_with_default_params() {
    let reply = qr(Some("https://example.com"), None);
    assert_eq!(reply.status(), 200);
    assert_eq!(reply.content_type(), Some("image/png"));
    png_bytes(reply);
}

#[test]
fn successful_generation_decodes_to_requested_size() {
    let reply = qr(Some("https://example.com"), Some("400"));
    assert_eq!(reply.status(), 200);
    assert_eq!(reply.content_type(), Some("image/png"));
    assert_eq!(reply.cache_control(), Some("public, max-age=3600"));
    let bytes = png_bytes(reply);
    let img = image::load_from_memory(&bytes).expect("response is a well-formed PNG");
    assert_eq!(img.width(), img.height());
    assert!(img.width() >= 400);
    let gray = img.to_luma8();
    assert!(gray.pixels().any(|p| p.0[0] == 0));
    assert!(gray.pixels().any(|p| p.0[0] == 255));
}

#[test]
fn exact_side_for_version_one_symbol() {
    // "X" fits the smallest QR version, 21 modules per side; for size 200
    // each module becomes a ceil(200/21) = 10 pixel block, so the image is
    // exactly 210 pixels on each side.
    let bytes = png_bytes(qr(Some("X"), None));
    let img = image::load_from_memory(&bytes).unwrap();
    assert_eq!(img.width(), 210);
    assert_eq!(img.height(), 210);
}

#[test]
fn boundary_sizes_succeed() {
    for size in ["50", "2000"] {
        let reply = qr(Some("boundary"), Some(size));
        let bytes = png_bytes(reply);
        let img = image::load_from_memory(&bytes).unwrap();
        assert!(img.width() >= size.parse::<u32>().unwrap());
        assert_eq!(img.width(), img.height());
    }
}

#[test]
fn boundary_sizes_fail() {
    for size in ["49", "2001"] {
        let (status, body) = text_reply(qr(Some("boundary"), Some(size)));
        assert_eq!(status, 400);
        assert!(body.contains("between 50 and 2000"));
    }
}

#[test]
fn oversized_request_names_the_range() {
    let (status, body) = text_reply(qr(Some("a"), Some("9999")));
    assert_eq!(status, 400);
    assert_eq!(body, "Size must be between 50 and 2000 pixels");
}

#[test]
fn non_numeric_size_is_invalid() {
    let (status, body) = text_reply(qr(Some("x"), Some("abc")));
    assert_eq!(status, 400);
    assert!(body.contains("invalid digit"));
}

#[test]
fn identical_requests_give_identical_bytes() {
    let a = png_bytes(qr(Some("determinism check"), Some("321")));
    let b = png_bytes(qr(Some("determinism check"), Some("321")));
    assert_eq!(a, b);
}

#[test]
fn absent_size_behaves_as_200() {
    let a = png_bytes(qr(Some("X"), None));
    let b = png_bytes(qr(Some("X"), Some("200")));
    assert_eq!(a, b);
}

#[test]
fn health_route_is_idempotent() {
    let (status1, body1) = text_reply(root());
    let (status2, body2) = text_reply(root());
    assert_eq!(status1, 200);
    assert_eq!(status2, 200);
    assert_eq!(body1, "This is the Actix Web in DevBox.");
    assert_eq!(body1, body2);
}

#[test]
fn overlong_payload_is_a_client_error() {
    let data = "a".repeat(8000);
    let (status, body) = text_reply(qr(Some(&data), Some("400")));
    assert_eq!(status, 400);
    assert!(body.starts_with("QR generation error: "));
    assert!(body.contains("data too long"));
}

#[test]
fn parse_u32_accepts_plain_decimals_only() {
    assert_eq!(qr_service::query::parse_u32("0"), Some(0));
    assert_eq!(qr_service::query::parse_u32("200"), Some(200));
    assert_eq!(qr_service::query::parse_u32("4294967295"), Some(u32::MAX));
    assert_eq!(qr_service::query::parse_u32("4294967296"), None);
    assert_eq!(qr_service::query::parse_u32("99999999999999999999"), None);
    assert_eq!(qr_service::query::parse_u32(""), None);
    assert_eq!(qr_service::query::parse_u32("12a"), None);
    assert_eq!(qr_service::query::parse_u32("+5"), None);
    assert_eq!(qr_service::query::parse_u32("-5"), None);
}

#[test]
fn validate_classifies_each_failure() {
    assert!(matches!(validate(None, None), Err(ServiceError::MissingParameter)));
    assert!(matches!(
        validate(Some("x"), Some("ten")),
        Err(ServiceError::InvalidParameter)
    ));
    assert!(matches!(
        validate(Some("x"), Some("49")),
        Err(ServiceError::OutOfRange)
    ));
    assert!(matches!(
        validate(Some("x"), Some("2001")),
        Err(ServiceError::OutOfRange)
    ));
    assert!(validate(Some("x"), Some("50")).is_ok());
    assert!(validate(Some("x"), Some("2000")).is_ok());
}

#[test]
fn empty_data_is_not_missing_data() {
    // An absent parameter is an error; an empty string is a valid payload.
    let reply = qr(Some(""), None);
    assert_eq!(reply.status(), 200);
    png_bytes(reply);
}

#[test]
fn error_statuses_and_bodies() {
    assert_eq!(ServiceError::MissingParameter.status(), 400);
    assert_eq!(ServiceError::InvalidParameter.status(), 400);
    assert_eq!(ServiceError::OutOfRange.status(), 400);
    assert_eq!(
        ServiceError::SymbolGenerationFailed("data too long".to_string()).status(),
        400
    );
    assert_eq!(ServiceError::EncodingFailed("boom".to_string()).status(), 500);
    assert_eq!(
        ServiceError::EncodingFailed("boom".to_string()).body(),
        "Image encoding error: boom"
    );
    assert_eq!(
        ServiceError::SymbolGenerationFailed("data too long".to_string()).body(),
        "QR generation error: data too long"
    );
    assert_eq!(
        ServiceError::MissingParameter.body(),
        "Query deserialize error: missing field `data`"
    );
}
