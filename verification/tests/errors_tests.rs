use timelapse::errors::EngineError;

#[test]
fn test_error_display() {
    let error = EngineError::UnableToFindHomeDir;
    assert_eq!(error.message(), "Unable to find home dir");

    let error = EngineError::UnableToCreateScreenshot { reason: "test reason".to_string() };
    assert_eq!(
        error.message(),
        "Unable to create screenshot because: test reason"
    );

    let error = EngineError::UnableToResizeScreenshot {
        path: "/test/path".to_string(),
        reason: "resize failed".to_string(),
    };
    assert_eq!(
        error.message(),
        "Unable to resize screenshot /test/path because: resize failed"
    );
}

#[test]
fn test_error_messages_other_variants() {
    let error = EngineError::UnableToConvertScreenshotPathToString;
    assert_eq!(error.message(), "Unable convert screenshot path to string");

    let error = EngineError::UnableToCheckIfImageIsBlack { reason: "No pixels could be sampled".to_string() };
    assert_eq!(
        error.message(),
        "Unable to check if image is black: No pixels could be sampled"
    );

    let error = EngineError::IoError { reason: "permission denied".to_string() };
    assert_eq!(error.message(), "IO Error");

    // A storage failure carries the engine's own description after the
    // fixed prefix.
    let sqlite_error = rusqlite::Connection::open("/nonexistent-dir/x/y.db").unwrap_err();
    let error = EngineError::DatabaseError(sqlite_error);
    assert!(error.message().starts_with("Database error:"));
}
