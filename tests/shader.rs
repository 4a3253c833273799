use lyra::shader::{
    check_gl_error, check_status, error_message, status_query, GlError, StatusQuery,
    GL_COMPILE_STATUS, GL_LINK_STATUS,
};

#[test]
fn status_queries() {
    assert_eq!(status_query(GL_COMPILE_STATUS), StatusQuery::Shader);
    assert_eq!(status_query(0x8B81), StatusQuery::Shader);
    assert_eq!(status_query(GL_LINK_STATUS), StatusQuery::Program);
    assert_eq!(status_query(0x8B82), StatusQuery::Program);
    assert_eq!(status_query(0), StatusQuery::Unqueried);
}

#[test]
fn success_is_ok() {
    assert!(check_status(1, &vec![], 0).is_ok());
    assert!(check_status(-3, &vec![b'x'; 8], -1).is_ok());
}

#[test]
fn failure_keeps_log_prefix() {
    let mut buffer = b"0:1(1): error: syntax".to_vec();
    buffer.resize(1024, 0);
    let err = check_status(0, &buffer, 21).unwrap_err();
    assert_eq!(err.log(), &b"0:1(1): error: syntax".to_vec());
    assert_eq!(err.message(), "Shader Compile Error: 0:1(1): error: syntax");
}

#[test]
fn failure_with_empty_log() {
    let err = check_status(0, &vec![0u8; 1024], 0).unwrap_err();
    assert!(err.log().is_empty());
    assert_eq!(err.message(), "Shader Compile Error: ");
}

#[test]
fn invalid_utf8_is_replaced() {
    let err = check_status(0, &vec![b'a', 0xFF, b'b', 0], 3).unwrap_err();
    assert_eq!(err.message(), "Shader Compile Error: a\u{FFFD}b");
}

#[test]
fn message_prefix() {
    assert_eq!(error_message("bad link"), "Shader Compile Error: bad link");
}

#[test]
fn gl_errors() {
    assert_eq!(check_gl_error(0), Ok(()));
    assert_eq!(check_gl_error(0x0500), Err(GlError { code: 0x0500 }));
}
