//! Pixel-buffer layout for the desktop snapshot and the tray icon.

use vstd::prelude::*;

verus! {

/// Byte `i` of the RGBA image converted from the BGRA buffer `bgra`: each
/// complete 4-byte pixel has its blue and red channels swapped and its alpha
/// forced opaque; bytes of a trailing partial pixel are zero.
pub open spec fn rgba_byte(bgra: Seq<u8>, i: int) -> u8 {
    let base = i - i % 4;
    if base + 4 <= bgra.len() {
        if i % 4 == 0 {
            bgra[base + 2]
        } else if i % 4 == 1 {
            bgra[base + 1]
        } else if i % 4 == 2 {
            bgra[base]
        } else {
            255
        }
    } else {
        0
    }
}

/// The image [`bgra_to_rgba`] produces from `bgra`.
pub open spec fn rgba_of(bgra: Seq<u8>) -> Seq<u8> {
    Seq::new(bgra.len(), |i: int| rgba_byte(bgra, i))
}

/// Swapping the blue and red channels twice restores every complete pixel's
/// colour channels, and leaves the image opaque.
pub proof fn lemma_channel_swap_involution(bgra: Seq<u8>, i: int)
    requires
        0 <= i < bgra.len(),
        i - i % 4 + 4 <= bgra.len(),
    ensures
        rgba_byte(rgba_of(bgra), i) == (if i % 4 == 3 { 255 } else { bgra[i] }),
{
    let base = i - i % 4;
    assert(base % 4 == 0) by (nonlinear_arith)
        requires
            base == i - i % 4,
            0 <= i,
    ;
    assert((base + 2) - (base + 2) % 4 == base && (base + 2) % 4 == 2) by (nonlinear_arith)
        requires
            base % 4 == 0,
            base >= 0,
    ;
    assert((base + 1) - (base + 1) % 4 == base && (base + 1) % 4 == 1) by (nonlinear_arith)
        requires
            base % 4 == 0,
            base >= 0,
    ;
    assert(base - base % 4 == base);
}

/// Convert a captured BGRA desktop image to opaque RGBA, pixel by pixel.
pub fn bgra_to_rgba(bgra: &[u8]) -> (rgba: Vec<u8>)
    ensures
        rgba@ == rgba_of(bgra@),
{
    let len = bgra.len();
    let whole = len - len % 4;
    let mut out: Vec<u8> = Vec::with_capacity(len);
    let mut p: usize = 0;
    while p < whole
        invariant
            len == bgra@.len(),
            whole == len - len % 4,
            p % 4 == 0,
            p <= whole,
            out@.len() == p,
            forall|i: int| 0 <= i < p ==> #[trigger] out@[i] == rgba_byte(bgra@, i),
        decreases whole - p,
    {
        out.push(bgra[p + 2]);
        out.push(bgra[p + 1]);
        out.push(bgra[p]);
        out.push(255u8);
        p = p + 4;
    }
    while p < len
        invariant
            len == bgra@.len(),
            whole == len - len % 4,
            whole <= p <= len,
            out@.len() == p,
            forall|i: int| 0 <= i < p ==> #[trigger] out@[i] == rgba_byte(bgra@, i),
        decreases len - p,
    {
        out.push(0u8);
        p = p + 1;
    }
    out
}

/// Edge length of the square tray icon for the given small-icon metrics:
/// each raised to at least 16 pixels, the smaller of the two, kept within
/// 16..=64.
pub open spec fn icon_size_spec(metric_width: i32, metric_height: i32) -> int {
    let w = if metric_width < 16 { 16 } else { metric_width as int };
    let h = if metric_height < 16 { 16 } else { metric_height as int };
    let m = if w < h { w } else { h };
    if m > 64 { 64 } else { m }
}

/// Edge length of the square tray icon: the small-icon metrics raised to at
/// least 16 pixels, the smaller of the two, kept within 16..=64.
pub fn icon_size(metric_width: i32, metric_height: i32) -> (size: u32)
    ensures
        16 <= size <= 64,
        size == icon_size_spec(metric_width, metric_height),
{
    let w = if metric_width < 16 { 16 } else { metric_width };
    let h = if metric_height < 16 { 16 } else { metric_height };
    let m = if w < h { w } else { h };
    let clamped = if m > 64 { 64 } else { m };
    clamped as u32
}

/// Bytes per row of a 1-bit-per-pixel icon mask `size` pixels wide: rows are
/// padded to whole 32-bit words.
pub fn mask_stride(size: u32) -> (stride: u32)
    ensures
        stride == (size as int + 31) / 32 * 4,
        stride * 8 >= size,
        stride % 4 == 0,
{
    let words = size / 32 + if size % 32 == 0 { 0 } else { 1 };
    words * 4
}

/// Width or height of the desktop capture: the overlay extent, at least one
/// pixel.
pub fn capture_extent(extent: i32) -> (n: u32)
    ensures
        n == (if extent < 1 { 1 } else { extent as int }),
        n >= 1,
{
    if extent < 1 {
        1
    } else {
        extent as u32
    }
}

} // verus!
