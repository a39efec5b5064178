//! Packed 16-bit halves of Win32 message parameters.

use vstd::prelude::*;

verus! {

/// The low 16 bits of `value`, as an unsigned integer.
pub open spec fn low_half(value: u32) -> int {
    value as int % 0x10000
}

/// The high 16 bits of `value`, as an unsigned integer.
pub open spec fn high_half(value: u32) -> int {
    value as int / 0x10000
}

/// Two's-complement reading of a 16-bit pattern.
pub open spec fn as_signed16(bits: int) -> int {
    if bits < 0x8000 {
        bits
    } else {
        bits - 0x10000
    }
}

/// Low word of a packed message parameter (`LOWORD`).
pub fn low_word(value: u32) -> (w: u16)
    ensures
        w == low_half(value),
{
    let w = (value & 0xffff) as u16;
    assert(w == value % 0x10000) by (bit_vector)
        requires
            w == (value & 0xffff) as u16,
    ;
    w
}

/// High word of a packed message parameter (`HIWORD`).
pub fn high_word(value: u32) -> (w: u16)
    ensures
        w == high_half(value),
{
    let w = ((value >> 16) & 0xffff) as u16;
    assert(w == value / 0x10000) by (bit_vector)
        requires
            w == ((value >> 16) & 0xffff) as u16,
    ;
    w
}

/// Low word of a packed message parameter read as a signed coordinate
/// (`GET_X_LPARAM`).
pub fn signed_low_word(value: u32) -> (w: i16)
    ensures
        w == as_signed16(low_half(value)),
{
    let u = low_word(value);
    let w = u as i16;
    assert(w == (if u < 0x8000 { u as int } else { u - 0x10000 })) by (bit_vector)
        requires
            w == u as i16,
    ;
    w
}

/// High word of a packed message parameter read as a signed coordinate
/// (`GET_Y_LPARAM`).
pub fn signed_high_word(value: u32) -> (w: i16)
    ensures
        w == as_signed16(high_half(value)),
{
    let u = high_word(value);
    let w = u as i16;
    assert(w == (if u < 0x8000 { u as int } else { u - 0x10000 })) by (bit_vector)
        requires
            w == u as i16,
    ;
    w
}

/// Client-area cursor position packed into a mouse message's `lParam`:
/// x in the signed low word, y in the signed high word.
pub fn client_pos_from_packed(packed: u32) -> (pos: (i16, i16))
    ensures
        pos.0 == as_signed16(low_half(packed)),
        pos.1 == as_signed16(high_half(packed)),
{
    (signed_low_word(packed), signed_high_word(packed))
}

/// Window client size packed into a `WM_SIZE` message's `lParam`: width in
/// the low word, height in the high word.
pub fn size_from_packed(packed: u32) -> (size: (i32, i32))
    ensures
        size.0 == low_half(packed),
        size.1 == high_half(packed),
{
    (low_word(packed) as i32, high_word(packed) as i32)
}

/// The two halves recombine into the packed value, and each half is a
/// 16-bit quantity.
pub proof fn lemma_halves_recombine(value: u32)
    ensures
        value == high_half(value) * 0x10000 + low_half(value),
        0 <= low_half(value) < 0x10000,
        0 <= high_half(value) < 0x10000,
{
}

/// The signed reading of a half keeps its bit pattern: it agrees with the
/// unsigned half modulo 2^16 and lies in the `i16` range.
pub proof fn lemma_signed_half_same_bits(bits: int)
    requires
        0 <= bits < 0x10000,
    ensures
        i16::MIN <= as_signed16(bits) <= i16::MAX,
        (as_signed16(bits) + 0x10000) % 0x10000 == bits,
        (as_signed16(bits) < 0) == (bits >= 0x8000),
{
}

} // verus!
