//! The last-error slot and the result code that every C entry point reports.

use vstd::prelude::*;
use vstd::utf8::encode_utf8;

use crate::c_string::{c_string_bytes, c_string_of_text};

verus! {

/// `anyhow::Error`, carried through the error slot as an opaque value.
#[verifier::external_type_specification]
#[verifier::external_body]
pub struct ExAnyhowError(anyhow::Error);

/// `std::io::Error`, the error type of crossterm's terminal operations.
#[verifier::external_type_specification]
#[verifier::external_body]
pub struct ExIoError(std::io::Error);

/// Result code recorded by a call that succeeded.
pub const RESULT_OK: i32 = 0;

/// Result code recorded by a call that failed.
pub const RESULT_ERR: i32 = -1;

/// The text reported when a message is asked for and no error is stored.
pub const NO_ERROR_TEXT: &'static str = "No error message found. Check library documentation for more information.";

/// Renders an error the way `format!("{:#}", err)` does (the whole cause chain).
///
/// Calls `anyhow::Error`'s `Display` impl in alternate mode. Nothing is stated
/// of the text: for an OS error it holds the system's message, which depends on
/// the process locale at the time of the call, so it is no function of the
/// error alone.
#[verifier::external_body]
fn error_alternate_text(err: &anyhow::Error) -> String {
    format!("{:#}", err)
}

/// Converts an I/O error into an `anyhow::Error` through anyhow's
/// `From<E: std::error::Error>` impl. Nothing is stated of the result: both
/// values are opaque, and the conversion captures a backtrace depending on
/// the environment.
#[verifier::external_body]
fn io_error_into_anyhow(err: std::io::Error) -> anyhow::Error {
    anyhow::Error::from(err)
}

/// The number a C caller is given as the size of a message's buffer: the
/// message's UTF-8 byte length plus one for the terminating NUL, as a C `int`
/// (wrapping, as the `as` conversion and addition of the C entry point do).
pub open spec fn c_length_of(text: Seq<char>) -> i32 {
    (encode_utf8(text).len() as usize as i32).wrapping_add(1)
}

/// The abstract state: the stored error, and the result code of the latest
/// call.
pub struct ErrorStateView {
    pub last: Option<anyhow::Error>,
    pub result: i32,
}

impl ErrorStateView {
    /// The stored error, if any.
    pub open spec fn stored(self) -> Option<anyhow::Error> {
        self.last
    }

    /// The state after a call that failed with `err`.
    pub open spec fn failed(self, err: anyhow::Error) -> ErrorStateView {
        ErrorStateView { last: Some(err), result: RESULT_ERR }
    }

    /// The state after a call that succeeded: the code is reset, the stored
    /// error stays.
    pub open spec fn succeeded(self) -> ErrorStateView {
        ErrorStateView { last: self.last, result: RESULT_OK }
    }

    /// The state after the stored error was taken out.
    pub open spec fn cleared(self) -> ErrorStateView {
        ErrorStateView { last: None, result: self.result }
    }
}

/// Per-thread error bookkeeping: the most recent error and the result code of
/// the most recent call. The error's message is rendered each time it is
/// asked for, not when the error is stored.
pub struct ErrorState {
    last_error: Option<anyhow::Error>,
    result: i32,
}

impl View for ErrorState {
    type V = ErrorStateView;

    closed spec fn view(&self) -> ErrorStateView {
        ErrorStateView { last: self.last_error, result: self.result }
    }
}

impl ErrorState {
    /// A state with no stored error and result code 0.
    pub fn new() -> (s: ErrorState)
        ensures
            s@.last is None,
            s@.result == RESULT_OK,
    {
        ErrorState { last_error: None, result: RESULT_OK }
    }

    /// The result code of the most recent call.
    pub fn result_code(&self) -> (r: i32)
        ensures
            r == self@.result,
    {
        self.result
    }
}

/// Stores `err` as the most recent error, replacing any earlier one. The
/// result code is left as it was.
pub fn set_last_error(state: &mut ErrorState, err: anyhow::Error)
    ensures
        final(state)@ == (ErrorStateView { last: Some(err), result: old(state)@.result }),
{
    state.last_error = Some(err);
}

/// Takes the most recent error, clearing the slot in the process.
pub fn take_last_error(state: &mut ErrorState) -> (r: Option<anyhow::Error>)
    ensures
        r == old(state)@.stored(),
        final(state)@ == old(state)@.cleared(),
{
    state.last_error.take()
}

/// Peeks at the most recent error and returns its message, rendered now as
/// `{:#}` renders it; `None` when no error is stored.
pub fn error_message(state: &ErrorState) -> (r: Option<String>)
    ensures
        r is Some <==> state@.last is Some,
{
    match &state.last_error {
        Some(e) => Some(error_alternate_text(e)),
        None => None,
    }
}

/// Turns the outcome of a fallible call into a plain value for C: on success
/// the value comes back and the result code becomes 0; on failure the error
/// is stored, the result code becomes -1 and `T::default()` comes back.
pub trait CUnwrapper<T> {
    fn c_unwrap(self, state: &mut ErrorState) -> T;
}

impl<T: Default> CUnwrapper<T> for Result<T, anyhow::Error> {
    fn c_unwrap(self, state: &mut ErrorState) -> (r: T)
        ensures
            match self {
                Ok(t) => r == t && final(state)@ == old(state)@.succeeded(),
                Err(e) => call_ensures(T::default, (), r)
                    && final(state)@ == old(state)@.failed(e),
            },
    {
        match self {
            Ok(t) => {
                state.result = RESULT_OK;
                t
            },
            Err(err) => {
                state.result = RESULT_ERR;
                set_last_error(state, err);
                T::default()
            },
        }
    }
}

impl<T: Default> CUnwrapper<T> for Result<T, std::io::Error> {
    fn c_unwrap(self, state: &mut ErrorState) -> (r: T)
        ensures
            match self {
                Ok(t) => r == t && final(state)@ == old(state)@.succeeded(),
                Err(_) => call_ensures(T::default, (), r)
                    && final(state)@.result == RESULT_ERR
                    && final(state)@.last is Some,
            },
    {
        match self {
            Ok(t) => {
                state.result = RESULT_OK;
                t
            },
            Err(err) => {
                state.result = RESULT_ERR;
                set_last_error(state, io_error_into_anyhow(err));
                T::default()
            },
        }
    }
}


/// The size of the C buffer that holds `text` and its NUL, as a C `int`.
pub fn text_c_length(text: &str) -> (n: i32)
    ensures
        n == c_length_of(text@),
        encode_utf8(text@).len() < i32::MAX ==> n == encode_utf8(text@).len() + 1,
{
    let len = text.len();
    #[verifier::truncate]
    let c_len = len as i32;
    c_len.wrapping_add(1)
}

/// The number of bytes the C caller needs for the last error's message,
/// including the trailing NUL; 0 when no error is stored. The message is
/// rendered by this call.
pub fn last_error_length(state: &ErrorState) -> (n: i32)
    ensures
        state@.last is None ==> n == 0,
        state@.last is Some ==> exists|t: Seq<char>| n == c_length_of(t),
{
    match &state.last_error {
        Some(e) => {
            let text = error_alternate_text(e);
            text_c_length(text.as_str())
        },
        None => 0,
    }
}

/// Takes the last error and returns its message, rendered by this call, as C
/// string bytes (the fixed notice when there is no error); `None` stands for
/// the null pointer the C caller gets when the message holds a NUL character.
pub fn take_last_error_c_message(state: &mut ErrorState) -> (r: Option<Vec<u8>>)
    ensures
        final(state)@ == old(state)@.cleared(),
        old(state)@.last is None ==> match r {
            Some(v) => c_string_of_text(NO_ERROR_TEXT@) == Some(v@),
            None => c_string_of_text(NO_ERROR_TEXT@) is None,
        },
        old(state)@.last is Some ==> exists|t: Seq<char>| match r {
            Some(v) => c_string_of_text(t) == Some(v@),
            None => c_string_of_text(t) is None,
        },
{
    match state.last_error.take() {
        Some(e) => {
            let text = error_alternate_text(&e);
            c_string_bytes(text.as_str())
        },
        None => c_string_bytes(NO_ERROR_TEXT),
    }
}

} // verus!
