//! SPIR-V shader binaries: the bytes of a compiled shader packed into the
//! 32-bit words a shader module is created from.

use vstd::prelude::*;

verus! {

/// The little-endian 32-bit word made of the four bytes `b0` (lowest) to
/// `b3` (highest).
pub open spec fn le_word(b0: u8, b1: u8, b2: u8, b3: u8) -> int {
    b0 + 256 * b1 + 65536 * b2 + 16777216 * b3
}

/// The SPIR-V words of the shader binary `spv`: each complete group of four
/// bytes read as one little-endian word; a trailing partial group is
/// dropped.
pub open spec fn spirv_words_spec(spv: Seq<u8>) -> Seq<u32> {
    Seq::new(
        spv.len() / 4,
        |k: int| le_word(spv[4 * k], spv[4 * k + 1], spv[4 * k + 2], spv[4 * k + 3]) as u32,
    )
}

/// Pack the bytes of a SPIR-V shader into the 32-bit words that a shader
/// module is created from.
pub fn spirv_words(spv: &[u8]) -> (words: Vec<u32>)
    ensures
        words@ == spirv_words_spec(spv@),
        forall|k: int|
            0 <= k < words@.len() ==> #[trigger] words@[k] == le_word(
                spv@[4 * k],
                spv@[4 * k + 1],
                spv@[4 * k + 2],
                spv@[4 * k + 3],
            ),
{
    let len: usize = spv.len();
    let n: usize = len / 4;
    let mut words: Vec<u32> = Vec::with_capacity(n);
    let mut k: usize = 0;
    while k < n
        invariant
            len == spv@.len(),
            n == len / 4,
            k <= n,
            words@.len() == k,
            forall|j: int|
                0 <= j < k ==> #[trigger] words@[j] == le_word(
                    spv@[4 * j],
                    spv@[4 * j + 1],
                    spv@[4 * j + 2],
                    spv@[4 * j + 3],
                ),
        decreases n - k,
    {
        let i: usize = 4 * k;
        let word: u32 = (spv[i] as u32) + (spv[i + 1] as u32) * 256 + (spv[i + 2] as u32) * 65536
            + (spv[i + 3] as u32) * 16777216;
        words.push(word);
        k = k + 1;
    }
    assert(words@ =~= spirv_words_spec(spv@));
    words
}

} // verus!
