//! Encoding text as a NUL-terminated C string.

use vstd::prelude::*;
use vstd::utf8::encode_utf8;

verus! {

/// The bytes of a C string holding `bytes`: the bytes followed by a single NUL,
/// or nothing when `bytes` itself holds a NUL (a C string cannot carry one).
pub open spec fn c_string_of(bytes: Seq<u8>) -> Option<Seq<u8>> {
    if bytes.contains(0u8) {
        None
    } else {
        Some(bytes.push(0u8))
    }
}

/// The C string of a text: its UTF-8 bytes followed by a NUL, or nothing when
/// the text holds a NUL character.
pub open spec fn c_string_of_text(text: Seq<char>) -> Option<Seq<u8>> {
    c_string_of(encode_utf8(text))
}

/// No byte of a scalar's UTF-8 encoding is 0 unless the scalar is 0 itself:
/// multi-byte encodings set the top bit of every byte.
pub proof fn lemma_encode_scalar_nonzero(v: u32)
    requires
        v != 0,
    ensures
        !vstd::utf8::encode_scalar(v).contains(0u8),
{
    assert(v != 0 && v <= 0x7F ==> ((v & 0x7F) as u8) != 0) by (bit_vector);
    assert((0xC0u8 | ((v >> 6) & 0x1F) as u8) != 0) by (bit_vector);
    assert((0xE0u8 | ((v >> 12) & 0x0F) as u8) != 0) by (bit_vector);
    assert((0xF0u8 | ((v >> 18) & 0x7) as u8) != 0) by (bit_vector);
    assert((0x80u8 | (v & 0x3F) as u8) != 0) by (bit_vector);
    assert((0x80u8 | ((v >> 6) & 0x3F) as u8) != 0) by (bit_vector);
    assert((0x80u8 | ((v >> 12) & 0x3F) as u8) != 0) by (bit_vector);
    let e = vstd::utf8::encode_scalar(v);
    assert forall|i: int| 0 <= i < e.len() implies e[i] != 0u8 by {}
}

/// A text without a NUL character encodes to UTF-8 bytes without a 0 byte.
pub proof fn lemma_encode_utf8_nul_free(s: Seq<char>)
    requires
        !s.contains('\0'),
    ensures
        !encode_utf8(s).contains(0u8),
    decreases s.len(),
{
    if s.len() > 0 {
        let c = s[0];
        assert(c != '\0') by {
            if c == '\0' {
                assert(s.contains('\0'));
            }
        }
        assert(c as u32 != 0) by {
            if c as u32 == 0 {
                vstd::utf8::char_u32_cast(c, 0u32);
                assert(0u32 as char == '\0');
            }
        }
        lemma_encode_scalar_nonzero(c as u32);
        let rest = s.drop_first();
        assert(!rest.contains('\0')) by {
            if rest.contains('\0') {
                let j = choose|j: int| 0 <= j < rest.len() && rest[j] == '\0';
                assert(s[j + 1] == '\0');
            }
        }
        lemma_encode_utf8_nul_free(rest);
        let a = vstd::utf8::encode_scalar(c as u32);
        let b = encode_utf8(rest);
        assert(encode_utf8(s) == a + b);
        if (a + b).contains(0u8) {
            let k = choose|k: int| 0 <= k < (a + b).len() && (a + b)[k] == 0u8;
            if k < a.len() {
                assert(a[k] == 0u8);
            } else {
                assert(b[k - a.len()] == 0u8);
            }
        }
    }
}

/// Builds the NUL-terminated copy of `bytes`, or `None` when `bytes` holds an
/// interior NUL.
pub fn c_string_from_bytes(bytes: &[u8]) -> (r: Option<Vec<u8>>)
    ensures
        match r {
            Some(v) => c_string_of(bytes@) == Some(v@),
            None => c_string_of(bytes@) is None,
        },
{
    let n = bytes.len();
    let mut out: Vec<u8> = Vec::new();
    for i in 0..n
        invariant
            n == bytes@.len(),
            out@ == bytes@.take(i as int),
            forall|j: int| 0 <= j < i ==> bytes@[j] != 0u8,
    {
        if bytes[i] == 0u8 {
            assert(bytes@.contains(0u8)) by {
                assert(bytes@[i as int] == 0u8);
            }
            return None;
        }
        out.push(bytes[i]);
        assert(out@ == bytes@.take(i + 1));
    }
    assert(out@ == bytes@);
    assert(!bytes@.contains(0u8)) by {
        if bytes@.contains(0u8) {
            let j = choose|j: int| 0 <= j < bytes@.len() && bytes@[j] == 0u8;
            assert(bytes@[j] != 0u8);
        }
    }
    out.push(0u8);
    Some(out)
}

/// Builds the C string of `s`: its UTF-8 bytes and a trailing NUL, or `None`
/// when `s` holds a NUL character.
pub fn c_string_bytes(s: &str) -> (r: Option<Vec<u8>>)
    ensures
        match r {
            Some(v) => c_string_of_text(s@) == Some(v@),
            None => c_string_of_text(s@) is None,
        },
{
    c_string_from_bytes(s.as_bytes())
}

} // verus!
