//! Properties that hold across the calls of the interface.

use vstd::prelude::*;
use vstd::utf8::encode_utf8;

use crate::c_string::{c_string_of, c_string_of_text};
use crate::error_state::{c_length_of, ErrorStateView, RESULT_ERR, RESULT_OK};
use crate::event_text::{decimal, describes, TerminalEvent};
use crate::terminal::KeyboardEnhancementFlags;

verus! {

/// After a call fails with `err`, the result code is -1, and taking the last
/// error gives back `err` and leaves nothing behind.
pub proof fn law_failure_is_reported(v: ErrorStateView, err: anyhow::Error)
    ensures
        v.failed(err).result == RESULT_ERR,
        v.failed(err).stored() == Some(err),
        v.failed(err).cleared().stored() is None,
{
}

/// A successful call resets the result code to 0 and keeps the stored error,
/// so its message can still be read afterwards.
pub proof fn law_success_keeps_error(v: ErrorStateView)
    ensures
        v.succeeded().result == RESULT_OK,
        v.succeeded().stored() == v.stored(),
{
}

/// Taking the last error clears it: no error is left (so the length then
/// reported is 0), the result code is untouched, and taking again changes
/// nothing.
pub proof fn law_take_clears(v: ErrorStateView)
    ensures
        v.cleared().stored() is None,
        v.cleared().result == v.result,
        v.cleared().cleared() == v.cleared(),
{
}

/// For any rendering of an error's message that fits a C `int` and holds no
/// NUL, the length reported for it is the size of the C string that hands it
/// out, the NUL included, and it is never 0 (the length reported when no
/// error is stored).
pub proof fn law_length_matches_message(text: Seq<char>)
    requires
        !encode_utf8(text).contains(0u8),
        encode_utf8(text).len() < i32::MAX,
    ensures
        c_string_of_text(text) is Some,
        c_string_of_text(text)->0.len() == c_length_of(text),
        c_length_of(text) >= 1,
{
}

/// A C string holds its text followed by exactly one NUL, at the end.
pub proof fn law_c_string_shape(bytes: Seq<u8>)
    ensures
        c_string_of(bytes) matches Some(c) ==> {
            &&& c.len() == bytes.len() + 1
            &&& c.last() == 0u8
            &&& c.drop_last() == bytes
            &&& forall|i: int| 0 <= i < bytes.len() ==> c[i] != 0u8
        },
        c_string_of(bytes) is None <==> bytes.contains(0u8),
{
    if let Some(c) = c_string_of(bytes) {
        assert(c.drop_last() =~= bytes);
        assert forall|i: int| 0 <= i < bytes.len() implies c[i] != 0u8 by {
            if c[i] == 0u8 {
                assert(bytes[i] == 0u8);
                assert(bytes.contains(0u8));
            }
        }
    }
}

/// The decimal rendering is made of ASCII digits, and has no leading zero
/// unless it is the number 0 itself.
pub proof fn law_decimal_digits(n: nat)
    ensures
        decimal(n).len() >= 1,
        forall|i: int| 0 <= i < decimal(n).len() ==> 48 <= #[trigger] decimal(n)[i] <= 57,
        decimal(n)[0] == 48u8 <==> n == 0,
    decreases n,
{
    if n >= 10 {
        law_decimal_digits(n / 10);
        assert(decimal(n / 10)[0] != 48u8);
    }
}

/// The number that a run of ASCII decimal digits stands for, most
/// significant digit first.
pub open spec fn digits_value(s: Seq<u8>) -> int
    decreases s.len(),
{
    if s.len() == 0 {
        0
    } else {
        10 * digits_value(s.drop_last()) + (s.last() - 48)
    }
}

/// Whether `s` is a non-empty run of ASCII decimal digits.
pub open spec fn is_digit_run(s: Seq<u8>) -> bool {
    &&& s.len() >= 1
    &&& forall|i: int| 0 <= i < s.len() ==> 48 <= #[trigger] s[i] <= 57
}

/// The decimal rendering of a number, read back as a base-10 number, is that
/// number.
pub proof fn law_decimal_reads_back(n: nat)
    ensures
        digits_value(decimal(n)) == n,
    decreases n,
{
    if n < 10 {
        assert(decimal(n).drop_last() =~= Seq::<u8>::empty());
        assert(digits_value(Seq::<u8>::empty()) == 0);
        assert(decimal(n).last() as int == 48 + n);
    } else {
        law_decimal_reads_back(n / 10);
        assert(decimal(n).drop_last() =~= decimal(n / 10));
        assert(decimal(n).last() as int == 48 + n % 10);
        assert(n == 10 * (n / 10) + n % 10);
    }
}

/// The text describing a resize to `(x, y)` is `(`, the digits of `x`, `, `,
/// the digits of `y`, `)`, where the digits read back as `x` and `y`.
pub proof fn law_resize_text_reads_back(
    outcome: Result<TerminalEvent, std::io::Error>,
    x: u16,
    y: u16,
    text: Seq<u8>,
)
    requires
        outcome matches Ok(TerminalEvent::Resize(a, b)) && a == x && b == y,
        describes(&outcome, text),
    ensures
        exists|dx: Seq<u8>, dy: Seq<u8>|
            {
                &&& text == seq![40u8] + dx + seq![44u8, 32u8] + dy + seq![41u8]
                &&& is_digit_run(dx) && digits_value(dx) == x
                &&& is_digit_run(dy) && digits_value(dy) == y
            },
{
    let dx = decimal(x as nat);
    let dy = decimal(y as nat);
    law_decimal_digits(x as nat);
    law_decimal_digits(y as nat);
    law_decimal_reads_back(x as nat);
    law_decimal_reads_back(y as nat);
    assert(text == seq![40u8] + dx + seq![44u8, 32u8] + dy + seq![41u8]);
    assert(is_digit_run(dx) && is_digit_run(dy));
}

/// Each keyboard enhancement flag is a single bit that the C entry point
/// accepts, and distinct flags never share a bit, so any set of them can be
/// or-ed into one mask.
pub proof fn law_keyboard_flags_are_bits(f: KeyboardEnhancementFlags, g: KeyboardEnhancementFlags)
    ensures
        f.spec_bits() < 16,
        f.spec_bits() != 0,
        f.spec_bits() & (f.spec_bits() - 1) as u8 == 0,
        f != g ==> f.spec_bits() & g.spec_bits() == 0,
        (f.spec_bits() | g.spec_bits()) < 16,
{
    let a = f.spec_bits();
    let b = g.spec_bits();
    assert(a == 1 || a == 2 || a == 4 || a == 8);
    assert(b == 1 || b == 2 || b == 4 || b == 8);
    assert((a == 1 || a == 2 || a == 4 || a == 8) ==> a & (a - 1) as u8 == 0) by (bit_vector);
    assert((a == 1 || a == 2 || a == 4 || a == 8) && (b == 1 || b == 2 || b == 4 || b == 8)
        ==> (a | b) < 16) by (bit_vector);
    assert((a == 1 || a == 2 || a == 4 || a == 8) && (b == 1 || b == 2 || b == 4 || b == 8) && a != b
        ==> a & b == 0) by (bit_vector);
}

} // verus!
