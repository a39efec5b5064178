//! NUL-terminated UTF-16 strings for Win32 APIs.

use vstd::prelude::*;

verus! {

/// The UTF-16 code units of one Unicode scalar value: a single unit below
/// U+10000, otherwise a high/low surrogate pair.
pub open spec fn utf16_of_char(c: char) -> Seq<u16> {
    let v = c as int;
    if v < 0x10000 {
        seq![v as u16]
    } else {
        seq![(0xD800 + (v - 0x10000) / 0x400) as u16, (0xDC00 + (v - 0x10000) % 0x400) as u16]
    }
}

/// The UTF-16 encoding of a character sequence.
pub open spec fn utf16_of(s: Seq<char>) -> Seq<u16>
    decreases s.len(),
{
    if s.len() == 0 {
        seq![]
    } else {
        utf16_of(s.drop_last()) + utf16_of_char(s.last())
    }
}

/// UTF-16 encoding distributes over concatenation: encoding two texts one
/// after the other gives the encoding of the joined text.
pub proof fn lemma_utf16_concat(a: Seq<char>, b: Seq<char>)
    ensures
        utf16_of(a + b) == utf16_of(a) + utf16_of(b),
    decreases b.len(),
{
    if b.len() == 0 {
        assert(a + b =~= a);
        assert(utf16_of(a) + utf16_of(b) =~= utf16_of(a));
    } else {
        lemma_utf16_concat(a, b.drop_last());
        assert((a + b).drop_last() =~= a + b.drop_last());
        assert((a + b).last() == b.last());
        assert(utf16_of(a) + utf16_of(b) =~= utf16_of(a) + utf16_of(b.drop_last()) + utf16_of_char(
            b.last(),
        ));
    }
}

/// Each character takes one or two UTF-16 units, so the encoding is at least
/// as long as the text and at most twice as long.
pub proof fn lemma_utf16_len_bounds(s: Seq<char>)
    ensures
        s.len() <= utf16_of(s).len() <= 2 * s.len(),
    decreases s.len(),
{
    if s.len() > 0 {
        lemma_utf16_len_bounds(s.drop_last());
    }
}

fn push_utf16(out: &mut Vec<u16>, c: char)
    ensures
        final(out)@ == old(out)@ + utf16_of_char(c),
{
    let v = c as u32;
    if v < 0x10000 {
        out.push(v as u16);
    } else {
        let u = v - 0x10000;
        out.push((0xD800 + u / 0x400) as u16);
        out.push((0xDC00 + u % 0x400) as u16);
    }
}

/// `text` encoded as UTF-16 with a terminating NUL unit.
pub fn wide_null(text: &str) -> (wide: Vec<u16>)
    ensures
        wide@ == utf16_of(text@).push(0),
{
    broadcast use vstd::string::axiom_spec_iter;

    let mut out: Vec<u16> = Vec::new();
    for c in it: text.chars()
        invariant
            it.seq() == text@,
            out@ == utf16_of(text@.take(it.index())),
    {
        proof {
            assert(text@.take(it.index() + 1).drop_last() == text@.take(it.index()));
        }
        push_utf16(&mut out, c);
    }
    assert(text@.take(text@.len() as int) == text@);
    out.push(0);
    out
}

/// Copy as much of the NUL-terminated UTF-16 form of `text` as fits into
/// `buf`; units of `buf` past the copied prefix are left untouched (so a
/// text that does not fit is truncated without a terminator).
pub fn fill_wide_buf(buf: &mut [u16], text: &str)
    ensures
        final(buf)@.len() == old(buf)@.len(),
        ({
            let wide = utf16_of(text@).push(0);
            let count = if wide.len() < old(buf)@.len() { wide.len() } else { old(buf)@.len() };
            final(buf)@ == wide.take(count as int) + old(buf)@.skip(count as int)
        }),
{
    let wide = wide_null(text);
    let count = if wide.len() < buf.len() { wide.len() } else { buf.len() };
    let ghost original = buf@;
    let mut i: usize = 0;
    while i < count
        invariant
            count <= wide@.len(),
            count <= original.len(),
            i <= count,
            buf@.len() == original.len(),
            buf@ == wide@.take(i as int) + original.skip(i as int),
        decreases count - i,
    {
        buf[i] = wide[i];
        i = i + 1;
        assert(buf@ == wide@.take(i as int) + original.skip(i as int));
    }
}

} // verus!
