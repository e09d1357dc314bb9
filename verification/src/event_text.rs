//! The text that describes a terminal event read for a C caller.

use vstd::prelude::*;
use vstd::utf8::encode_utf8;

use crate::c_string::{c_string_from_bytes, c_string_of, lemma_encode_utf8_nul_free};
use crate::laws::law_decimal_digits;

verus! {

/// A key press, release or repeat as crossterm reports it.
#[verifier::external_type_specification]
#[verifier::external_body]
pub struct ExKeyEvent(crossterm::event::KeyEvent);

/// A mouse event as crossterm reports it.
#[verifier::external_type_specification]
#[verifier::external_body]
pub struct ExMouseEvent(crossterm::event::MouseEvent);

/// A terminal event, one variant for each of crossterm's `Event` variants,
/// holding the same data.
pub enum TerminalEvent {
    /// The terminal gained focus.
    FocusGained,
    /// The terminal lost focus.
    FocusLost,
    /// A key event.
    Key(crossterm::event::KeyEvent),
    /// A mouse event.
    Mouse(crossterm::event::MouseEvent),
    /// Text pasted while bracketed paste was on.
    Paste(String),
    /// The new size after a resize, `(columns, rows)`.
    Resize(u16, u16),
}

/// The ASCII decimal digits of `n`, most significant first, without leading
/// zeros (so `0` is the single digit `0`), as `{:?}` writes an unsigned integer.
pub open spec fn decimal(n: nat) -> Seq<u8>
    decreases n,
{
    if n < 10 {
        seq![(48 + n) as u8]
    } else {
        decimal(n / 10).push((48 + n % 10) as u8)
    }
}

/// The text `{:?}` writes for a string: the string in double quotes, with
/// std's escapes.
pub uninterp spec fn debug_quoted(s: Seq<char>) -> Seq<char>;

/// The text of crossterm's derived `Debug` for a key event.
pub uninterp spec fn key_event_text(key: crossterm::event::KeyEvent) -> Seq<char>;

/// The text of crossterm's derived `Debug` for a mouse event.
pub uninterp spec fn mouse_event_text(mouse: crossterm::event::MouseEvent) -> Seq<char>;

/// `format!("{:?}", s)` for a string (std's `Debug` for `str`): the result is
/// named `debug_quoted` of the string's characters. std escapes a NUL
/// character (as `\0`), so the text holds none.
#[verifier::external_body]
fn debug_string(s: &str) -> (r: String)
    ensures
        r@ == debug_quoted(s@),
        !r@.contains('\0'),
{
    format!("{:?}", s)
}

/// `format!("{:?}", key)` (the derived `Debug` of crossterm's `KeyEvent`),
/// named `key_event_text` of the event. The derived text is made of field
/// names, variant names, numbers, bitflags names and `char`'s `Debug`, which
/// escapes a NUL, so it holds no NUL character.
#[verifier::external_body]
fn key_event_debug(key: &crossterm::event::KeyEvent) -> (r: String)
    ensures
        r@ == key_event_text(*key),
        !r@.contains('\0'),
{
    format!("{:?}", key)
}

/// `format!("{:?}", mouse)` (the derived `Debug` of crossterm's
/// `MouseEvent`), named `mouse_event_text` of the event. The derived text is
/// made of field names, variant names, numbers and bitflags names, so it
/// holds no NUL character.
#[verifier::external_body]
fn mouse_event_debug(mouse: &crossterm::event::MouseEvent) -> (r: String)
    ensures
        r@ == mouse_event_text(*mouse),
        !r@.contains('\0'),
{
    format!("{:?}", mouse)
}

/// `format!("{:?}", err)` for an I/O error (std's `Debug` for `io::Error`).
/// Nothing is stated of the text: the error is opaque.
#[verifier::external_body]
fn io_error_debug(err: &std::io::Error) -> String {
    format!("{:?}", err)
}

/// The text written for a resize to `(x, y)`: `(x, y)` in decimal, as
/// `{:?}` writes a pair of integers.
pub open spec fn resize_text(x: u16, y: u16) -> Seq<u8> {
    seq![40u8] + decimal(x as nat) + seq![44u8, 32u8] + decimal(y as nat) + seq![41u8]
}

/// Whether `text` (UTF-8 bytes) is the description of `outcome`: the `{:?}`
/// rendering of the event's data, or `Unknown event ` and the error's `{:?}`.
/// Key and mouse events are rendered by crossterm's derived `Debug`.
pub open spec fn describes(outcome: &Result<TerminalEvent, std::io::Error>, text: Seq<u8>) -> bool {
    match outcome {
        Ok(TerminalEvent::FocusGained) => text == encode_utf8("\"FocusGained\""@),
        Ok(TerminalEvent::FocusLost) => text == encode_utf8("\"FocusLost\""@),
        Ok(TerminalEvent::Key(k)) => text == encode_utf8(key_event_text(*k)),
        Ok(TerminalEvent::Mouse(m)) => text == encode_utf8(mouse_event_text(*m)),
        Ok(TerminalEvent::Paste(s)) => text == encode_utf8(debug_quoted(s@)),
        Ok(TerminalEvent::Resize(x, y)) => text == resize_text(*x, *y),
        Err(_) => exists|d: Seq<char>| text == encode_utf8("Unknown event "@) + encode_utf8(d),
    }
}

/// The resize text holds no 0 byte: it is ASCII digits and punctuation.
proof fn lemma_resize_text_nul_free(x: u16, y: u16)
    ensures
        !resize_text(x, y).contains(0u8),
{
    law_decimal_digits(x as nat);
    law_decimal_digits(y as nat);
    let t = resize_text(x, y);
    let dx = decimal(x as nat);
    let dy = decimal(y as nat);
    assert forall|i: int| 0 <= i < t.len() implies t[i] != 0u8 by {
        if 1 <= i < 1 + dx.len() {
            assert(t[i] == dx[i - 1]);
        } else if 3 + dx.len() <= i < 3 + dx.len() + dy.len() {
            assert(t[i] == dy[i - 3 - dx.len()]);
        }
    }
}

/// Appends the decimal digits of `n` to `out`.
fn push_decimal(out: &mut Vec<u8>, n: u16)
    ensures
        final(out)@ == old(out)@ + decimal(n as nat),
    decreases n,
{
    if n < 10 {
        out.push(48u8 + n as u8);
    } else {
        push_decimal(out, n / 10);
        out.push(48u8 + (n % 10) as u8);
    }
}

/// Appends all of `bytes` to `out`.
fn push_all(out: &mut Vec<u8>, bytes: &[u8])
    ensures
        final(out)@ == old(out)@ + bytes@,
{
    out.extend_from_slice(bytes);
    assert(out@ =~= old(out)@ + bytes@);
}

/// The UTF-8 text that describes the outcome of reading an event.
pub fn event_text(outcome: &Result<TerminalEvent, std::io::Error>) -> (r: Vec<u8>)
    ensures
        describes(outcome, r@),
        outcome is Ok ==> !r@.contains(0u8),
{
    let mut out: Vec<u8> = Vec::new();
    match outcome {
        Ok(TerminalEvent::FocusGained) => {
            push_all(&mut out, "\"FocusGained\"".as_bytes());
            proof {
                reveal_strlit("\"FocusGained\"");
                lemma_encode_utf8_nul_free("\"FocusGained\""@);
            }
        },
        Ok(TerminalEvent::FocusLost) => {
            push_all(&mut out, "\"FocusLost\"".as_bytes());
            proof {
                reveal_strlit("\"FocusLost\"");
                lemma_encode_utf8_nul_free("\"FocusLost\""@);
            }
        },
        Ok(TerminalEvent::Key(key)) => {
            let t = key_event_debug(key);
            push_all(&mut out, t.as_str().as_bytes());
            proof {
                lemma_encode_utf8_nul_free(t@);
            }
        },
        Ok(TerminalEvent::Mouse(mouse)) => {
            let t = mouse_event_debug(mouse);
            push_all(&mut out, t.as_str().as_bytes());
            proof {
                lemma_encode_utf8_nul_free(t@);
            }
        },
        Ok(TerminalEvent::Paste(s)) => {
            let t = debug_string(s.as_str());
            push_all(&mut out, t.as_str().as_bytes());
            proof {
                lemma_encode_utf8_nul_free(t@);
            }
        },
        Ok(TerminalEvent::Resize(x, y)) => {
            out.push(40u8);
            push_decimal(&mut out, *x);
            out.push(44u8);
            out.push(32u8);
            push_decimal(&mut out, *y);
            out.push(41u8);
            assert(out@ =~= resize_text(*x, *y));
            proof {
                lemma_resize_text_nul_free(*x, *y);
            }
        },
        Err(e) => {
            push_all(&mut out, "Unknown event ".as_bytes());
            let t = io_error_debug(e);
            push_all(&mut out, t.as_str().as_bytes());
        },
    }
    out
}

/// The C string handed out for the outcome of reading an event: the
/// describing text with a trailing NUL, or `None` (a null pointer) when the
/// text holds a NUL.
pub fn event_c_string(outcome: &Result<TerminalEvent, std::io::Error>) -> (r: Option<Vec<u8>>)
    ensures
        exists|t: Seq<u8>|
            describes(outcome, t) && match r {
                Some(v) => c_string_of(t) == Some(v@),
                None => c_string_of(t) is None,
            },
        outcome is Ok ==> r is Some,
{
    let text = event_text(outcome);
    c_string_from_bytes(text.as_slice())
}

} // verus!
