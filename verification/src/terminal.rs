//! The plain data of the C interface and the result of each terminal call.

use vstd::prelude::*;
use vstd::utf8::{decode_utf8, valid_utf8};

use crate::error_state::{CUnwrapper, ErrorState, ErrorStateView, RESULT_ERR};

verus! {

/// Cursor position filled in for the C caller.
pub struct CursorPosition {
    pub column: u16,
    pub row: u16,
}

/// Terminal size filled in for the C caller.
pub struct TerminalSize {
    pub width: u16,
    pub height: u16,
}

/// Flags that tell compatible terminals to add extra information to keyboard
/// events (the kitty keyboard protocol's progressive enhancement).
pub enum KeyboardEnhancementFlags {
    /// Represent Escape and modified keys using CSI-u sequences.
    DisambiguateEscapeCodes,
    /// Add events for key repeats and releases.
    ReportEventTypes,
    /// Send alternate keycodes in addition to the base keycode.
    ReportAlternateKeys,
    /// Represent all keyboard events as CSI-u sequences.
    ReportAllKeysAsEscapeCodes,
}

impl KeyboardEnhancementFlags {
    /// The bit that stands for this flag in the C interface.
    pub open spec fn spec_bits(&self) -> u8 {
        match self {
            KeyboardEnhancementFlags::DisambiguateEscapeCodes => 0b0000_0001,
            KeyboardEnhancementFlags::ReportEventTypes => 0b0000_0010,
            KeyboardEnhancementFlags::ReportAlternateKeys => 0b0000_0100,
            KeyboardEnhancementFlags::ReportAllKeysAsEscapeCodes => 0b0000_1000,
        }
    }

    /// The bit that stands for this flag in the C interface.
    #[verifier::when_used_as_spec(spec_bits)]
    pub fn bits(&self) -> (b: u8)
        ensures
            b == self.spec_bits(),
    {
        match self {
            KeyboardEnhancementFlags::DisambiguateEscapeCodes => 0b0000_0001,
            KeyboardEnhancementFlags::ReportEventTypes => 0b0000_0010,
            KeyboardEnhancementFlags::ReportAlternateKeys => 0b0000_0100,
            KeyboardEnhancementFlags::ReportAllKeysAsEscapeCodes => 0b0000_1000,
        }
    }
}

/// Text attributes that can be set on the terminal.
pub enum Attribute {
    /// Resets all the attributes.
    Reset,
    /// Increases the text intensity.
    Bold,
    /// Decreases the text intensity.
    Dim,
    /// Emphasises the text.
    Italic,
    /// Underlines the text.
    Underlined,
    /// Double underlines the text.
    DoubleUnderlined,
    /// Undercurls the text.
    Undercurled,
    /// Underdots the text.
    Underdotted,
    /// Underdashes the text.
    Underdashed,
    /// Makes the text blinking (< 150 per minute).
    SlowBlink,
    /// Makes the text blinking (>= 150 per minute).
    RapidBlink,
    /// Swaps foreground and background colors.
    Reverse,
    /// Hides the text (also known as Conceal).
    Hidden,
    /// Crosses the text.
    CrossedOut,
    /// Sets the Fraktur typeface.
    Fraktur,
    /// Turns off the `Bold` attribute.
    NoBold,
    /// Switches the text back to normal intensity (no bold, italic).
    NormalIntensity,
    /// Turns off the `Italic` attribute.
    NoItalic,
    /// Turns off the `Underlined` attribute.
    NoUnderline,
    /// Turns off the text blinking (`SlowBlink` or `RapidBlink`).
    NoBlink,
    /// Turns off the `Reverse` attribute.
    NoReverse,
    /// Turns off the `Hidden` attribute.
    NoHidden,
    /// Turns off the `CrossedOut` attribute.
    NotCrossedOut,
    /// Makes the text framed.
    Framed,
    /// Makes the text encircled.
    Encircled,
    /// Draws a line at the top of the text.
    OverLined,
    /// Turns off the `Frame` and `Encircled` attributes.
    NotFramedOrEncircled,
    /// Turns off the `OverLined` attribute.
    NotOverLined,
}

/// A bitset for all possible attributes.
#[derive(Debug, Default, Clone, Copy, PartialEq, Eq)]
pub struct Attributes(u32);

/// Terminal colors.
#[derive(Copy, Clone, Debug, PartialEq, Eq, Ord, PartialOrd, Hash)]
pub enum Color {
    /// Resets the terminal color.
    Reset,
    /// Black color.
    Black,
    /// Dark grey color.
    DarkGrey,
    /// Light red color.
    Red,
    /// Dark red color.
    DarkRed,
    /// Light green color.
    Green,
    /// Dark green color.
    DarkGreen,
    /// Light yellow color.
    Yellow,
    /// Dark yellow color.
    DarkYellow,
    /// Light blue color.
    Blue,
    /// Dark blue color.
    DarkBlue,
    /// Light magenta color.
    Magenta,
    /// Dark magenta color.
    DarkMagenta,
    /// Light cyan color.
    Cyan,
    /// Dark cyan color.
    DarkCyan,
    /// White color.
    White,
    /// Grey color.
    Grey,
    /// An RGB color.
    Rgb { r: u8, g: u8, b: u8 },
    /// An ANSI color.
    AnsiValue(u8),
}

/// Different ways to clear the terminal buffer.
#[derive(Copy, Clone, Debug, PartialEq, Eq, Ord, PartialOrd, Hash)]
pub enum ClearType {
    /// All cells.
    All,
    /// All plus history.
    Purge,
    /// All cells from the cursor position downwards.
    FromCursorDown,
    /// All cells from the cursor position upwards.
    FromCursorUp,
    /// All cells at the cursor row.
    CurrentLine,
    /// All cells from the cursor position until the new line.
    UntilNewLine,
}

/// Whether `crossterm::event::KeyboardEnhancementFlags::from_bits(bits)`
/// returns `Some`. bitflags' source returns `Some` exactly when no bit outside
/// the defined flags is set; the four flags crossterm 0.27 defines are the
/// bits `0b1111`.
#[verifier::external_body]
fn crossterm_flags_accept(bits: u8) -> (r: bool)
    ensures
        r <==> bits & 0x0f == bits,
{
    crossterm::event::KeyboardEnhancementFlags::from_bits(bits).is_some()
}

/// `crossterm::terminal::is_raw_mode_enabled`. What it returns depends on the
/// process's terminal state, so nothing is stated of it.
#[verifier::external_body]
fn crossterm_raw_mode_query() -> std::io::Result<bool> {
    crossterm::terminal::is_raw_mode_enabled()
}

/// `std::str::from_utf8`: `Ok` exactly when the bytes are well-formed UTF-8,
/// and then the text they encode.
#[verifier::external_body]
fn utf8_str(bytes: &[u8]) -> (r: Option<&str>)
    ensures
        r is Some <==> valid_utf8(bytes@),
        r matches Some(s) ==> s@ == decode_utf8(bytes@),
{
    std::str::from_utf8(bytes).ok()
}

/// Whether the C caller's bit mask names only defined keyboard enhancement
/// flags (the C entry point panics on any other mask).
pub fn keyboard_enhancement_bits_valid(bits: u8) -> (r: bool)
    ensures
        r <==> bits < 16,
{
    assert(bits & 0x0f == bits <==> bits < 16) by (bit_vector);
    crossterm_flags_accept(bits)
}

/// The terminal title in a C string's bytes (without the NUL), or `None` when
/// the bytes are not UTF-8 (the C entry point panics there).
pub fn terminal_title(bytes: &[u8]) -> (r: Option<&str>)
    ensures
        r is Some <==> valid_utf8(bytes@),
        r matches Some(s) ==> s@ == decode_utf8(bytes@),
{
    utf8_str(bytes)
}

/// Records the outcome of a terminal command and returns the result code the
/// C caller gets: 0 after success, -1 (with the error stored) after failure.
pub fn command_status(state: &mut ErrorState, outcome: std::io::Result<()>) -> (r: i32)
    ensures
        r == final(state)@.result,
        outcome is Ok ==> final(state)@ == old(state)@.succeeded(),
        outcome is Err ==> final(state)@.result == RESULT_ERR && final(state)@.last is Some,
{
    outcome.c_unwrap(state);
    state.result_code()
}

/// The C `int` for the outcome of polling for an event: 1 when an event is
/// available, 0 when not or when polling failed (then the error is stored).
pub fn poll_status(state: &mut ErrorState, outcome: std::io::Result<bool>) -> (r: i32)
    ensures
        match outcome {
            Ok(b) => r == (if b { 1i32 } else { 0i32 }) && final(state)@ == old(state)@.succeeded(),
            Err(_) => r == 0 && final(state)@.result == RESULT_ERR && final(state)@.last is Some,
        },
{
    let available: bool = outcome.c_unwrap(state);
    if available {
        1
    } else {
        0
    }
}

/// Fills `pos` from the outcome of asking for the cursor position, `(0, 0)`
/// when that failed, and returns the result code.
pub fn store_cursor_position(
    state: &mut ErrorState,
    pos: &mut CursorPosition,
    outcome: std::io::Result<(u16, u16)>,
) -> (r: i32)
    ensures
        r == final(state)@.result,
        match outcome {
            Ok((column, row)) => final(pos).column == column && final(pos).row == row
                && final(state)@ == old(state)@.succeeded(),
            Err(_) => final(pos).column == 0 && final(pos).row == 0
                && final(state)@.result == RESULT_ERR && final(state)@.last is Some,
        },
{
    let (column, row) = outcome.c_unwrap(state);
    pos.column = column;
    pos.row = row;
    state.result_code()
}

/// Fills `size` from the outcome of asking for the terminal size, `(0, 0)`
/// when that failed, and returns the result code.
pub fn store_terminal_size(
    state: &mut ErrorState,
    size: &mut TerminalSize,
    outcome: std::io::Result<(u16, u16)>,
) -> (r: i32)
    ensures
        r == final(state)@.result,
        match outcome {
            Ok((width, height)) => final(size).width == width && final(size).height == height
                && final(state)@ == old(state)@.succeeded(),
            Err(_) => final(size).width == 0 && final(size).height == 0
                && final(state)@.result == RESULT_ERR && final(state)@.last is Some,
        },
{
    let (width, height) = outcome.c_unwrap(state);
    size.width = width;
    size.height = height;
    state.result_code()
}

/// The answer to "is raw mode enabled?" for the outcome of asking crossterm:
/// the answer itself, or `false` with the error stored when asking failed.
pub fn raw_mode_status(state: &mut ErrorState, outcome: std::io::Result<bool>) -> (r: bool)
    ensures
        match outcome {
            Ok(b) => r == b && final(state)@ == old(state)@.succeeded(),
            Err(_) => !r && final(state)@.result == RESULT_ERR && final(state)@.last is Some,
        },
{
    outcome.c_unwrap(state)
}

/// Tells whether raw mode is enabled; when the query fails the error is
/// stored and the answer is `false`.
pub fn is_raw_mode_enabled(state: &mut ErrorState) -> (r: bool)
    ensures
        final(state)@ == old(state)@.succeeded()
            || (!r && final(state)@.result == RESULT_ERR && final(state)@.last is Some),
{
    raw_mode_status(state, crossterm_raw_mode_query())
}

} // verus!
