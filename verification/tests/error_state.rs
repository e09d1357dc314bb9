use crossterm_cffi::error_state::{
    error_message, last_error_length, set_last_error, text_c_length, take_last_error, take_last_error_c_message,
    CUnwrapper, ErrorState, NO_ERROR_TEXT, RESULT_ERR, RESULT_OK,
};

fn io_error(text: &str) -> std::io::Error {
    std::io::Error::new(std::io::ErrorKind::Other, text.to_string())
}

#[test]
fn new_state_has_no_error() {
    let state = ErrorState::new();
    assert_eq!(state.result_code(), RESULT_OK);
    assert_eq!(error_message(&state), None);
    assert_eq!(last_error_length(&state), 0);
}

#[test]
fn set_then_peek_then_take() {
    let mut state = ErrorState::new();
    set_last_error(&mut state, anyhow::Error::msg("boom"));
    assert_eq!(error_message(&state), Some("boom".to_string()));
    // peeking does not clear
    assert_eq!(error_message(&state), Some("boom".to_string()));
    assert_eq!(last_error_length(&state), 5);
    let taken = take_last_error(&mut state);
    assert_eq!(taken.map(|e| e.to_string()), Some("boom".to_string()));
    assert!(take_last_error(&mut state).is_none());
    assert_eq!(error_message(&state), None);
    assert_eq!(last_error_length(&state), 0);
    // setting an error leaves the result code alone
    assert_eq!(state.result_code(), RESULT_OK);
}

#[test]
fn message_uses_the_whole_cause_chain() {
    let mut state = ErrorState::new();
    let err = anyhow::Error::msg("inner").context("outer");
    set_last_error(&mut state, err);
    assert_eq!(error_message(&state), Some("outer: inner".to_string()));
    assert_eq!(last_error_length(&state), 13);
}

#[test]
fn later_error_replaces_earlier() {
    let mut state = ErrorState::new();
    set_last_error(&mut state, anyhow::Error::msg("first"));
    set_last_error(&mut state, anyhow::Error::msg("second"));
    assert_eq!(error_message(&state), Some("second".to_string()));
}

#[test]
fn c_message_of_stored_error() {
    let mut state = ErrorState::new();
    set_last_error(&mut state, anyhow::Error::msg("héllo"));
    let len = last_error_length(&state);
    let bytes = take_last_error_c_message(&mut state).unwrap();
    assert_eq!(bytes, b"h\xc3\xa9llo\0".to_vec());
    assert_eq!(bytes.len() as i32, len);
    assert_eq!(error_message(&state), None);
}

#[test]
fn c_message_without_error_is_the_notice() {
    let mut state = ErrorState::new();
    let bytes = take_last_error_c_message(&mut state).unwrap();
    let mut expected = NO_ERROR_TEXT.as_bytes().to_vec();
    expected.push(0);
    assert_eq!(bytes, expected);
    assert_eq!(
        NO_ERROR_TEXT,
        "No error message found. Check library documentation for more information."
    );
}

#[test]
fn c_message_with_interior_nul_is_null() {
    let mut state = ErrorState::new();
    set_last_error(&mut state, anyhow::Error::msg("a\0b"));
    assert_eq!(take_last_error_c_message(&mut state), None);
    assert_eq!(error_message(&state), None);
}

#[test]
fn c_unwrap_anyhow_ok_and_err() {
    let mut state = ErrorState::new();
    let ok: anyhow::Result<u16> = Ok(7);
    assert_eq!(ok.c_unwrap(&mut state), 7);
    assert_eq!(state.result_code(), RESULT_OK);

    let err: anyhow::Result<u16> = Err(anyhow::Error::msg("nope"));
    assert_eq!(err.c_unwrap(&mut state), 0);
    assert_eq!(state.result_code(), RESULT_ERR);
    assert_eq!(error_message(&state), Some("nope".to_string()));

    // a later success resets the code but keeps the message
    let ok: anyhow::Result<bool> = Ok(true);
    assert!(ok.c_unwrap(&mut state));
    assert_eq!(state.result_code(), RESULT_OK);
    assert_eq!(error_message(&state), Some("nope".to_string()));
}

#[test]
fn c_unwrap_io_error() {
    let mut state = ErrorState::new();
    let err: std::io::Result<(u16, u16)> = Err(io_error("no tty"));
    assert_eq!(err.c_unwrap(&mut state), (0, 0));
    assert_eq!(state.result_code(), RESULT_ERR);
    assert_eq!(error_message(&state), Some("no tty".to_string()));
    assert_eq!(last_error_length(&state), 7);

    let ok: std::io::Result<String> = Ok("x".to_string());
    assert_eq!(ok.c_unwrap(&mut state), "x".to_string());
    assert_eq!(state.result_code(), RESULT_OK);
}

#[test]
fn text_length_counts_bytes_and_nul() {
    assert_eq!(text_c_length(""), 1);
    assert_eq!(text_c_length("abc"), 4);
    assert_eq!(text_c_length("é"), 3);
}

#[test]
fn message_is_rendered_when_asked() {
    let mut state = ErrorState::new();
    set_last_error(&mut state, anyhow::Error::msg("x").context("y"));
    assert_eq!(error_message(&state), Some("y: x".to_string()));
    assert_eq!(last_error_length(&state), 5);
    assert_eq!(take_last_error_c_message(&mut state), Some(b"y: x\0".to_vec()));
}
