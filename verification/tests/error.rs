use govee::error::GoveeError;

#[test]
fn error_messages() {
    assert_eq!(GoveeError::DeviceNotFound("x".to_string()).message(), "device not found: x");
    assert_eq!(
        GoveeError::InvalidBrightness { value: 0 }.message(),
        "invalid brightness 0: must be 1\u{2013}100"
    );
    assert_eq!(
        GoveeError::InvalidColorTemp { value: 9001 }.message(),
        "invalid color temperature 9001K: must be 2000\u{2013}9000"
    );
    assert_eq!(
        GoveeError::ApiError { status: 404, message: "Not Found".to_string() }.message(),
        "API error (404): Not Found"
    );
    assert_eq!(GoveeError::Timeout.message(), "timeout waiting for device response");
    let io = std::io::Error::new(std::io::ErrorKind::Other, "boom");
    assert_eq!(GoveeError::Network(io).message(), "network error: boom");
    let json = serde_json::from_str::<u8>("x").unwrap_err();
    let text = json.to_string();
    assert_eq!(GoveeError::Json(json).message(), format!("JSON error: {text}"));
}
