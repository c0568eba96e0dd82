//! Numeric helpers: byte-to-word packing, texel sizes and mip pyramid depth.
use vstd::prelude::*;
use vstd::arithmetic::power2::pow2;
use crate::vk;

verus! {

/// Byte `k` of `d`, or zero past its end.
pub open spec fn byte_or_zero(d: Seq<u8>, k: int) -> int {
    if 0 <= k < d.len() {
        d[k] as int
    } else {
        0
    }
}

/// Word `i` of `d` read as little-endian u32s, the last word zero-padded.
pub open spec fn padded_le_word(d: Seq<u8>, i: int) -> int {
    byte_or_zero(d, 4 * i) + 256 * byte_or_zero(d, 4 * i + 1) + 65536 * byte_or_zero(d, 4 * i + 2)
        + 16777216 * byte_or_zero(d, 4 * i + 3)
}

/// Number of 32-bit words needed to hold `n` bytes.
pub open spec fn word_count(n: int) -> int {
    (n + 3) / 4
}

/// Byte `base + j` of `data`, or zero past its end.
fn byte_or_zero_at(data: &[u8], base: usize, j: usize) -> (r: u32)
    requires
        base <= data@.len(),
    ensures
        r as int == byte_or_zero(data@, base + j),
        r < 256,
{
    assert(data@.len() == data.len());
    if j < data.len() - base {
        data[base + j] as u32
    } else {
        0
    }
}

/// Packs bytes into little-endian 32-bit words, zero-padding the last word.
pub fn as_u32_vec(data: &[u8]) -> (r: Vec<u32>)
    ensures
        r@.len() == word_count(data@.len() as int),
        forall|i: int| 0 <= i < r@.len() ==> r@[i] as int == padded_le_word(data@, i),
{
    assert(data@.len() == data.len());
    let len = data.len();
    let size_aligned = len / 4 + if len % 4 == 0 { 0 } else { 1 };
    let mut res: Vec<u32> = Vec::new();
    let mut i: usize = 0;
    while i < size_aligned
        invariant
            len == data@.len(),
            size_aligned == word_count(len as int),
            i <= size_aligned,
            res@.len() == i,
            forall|k: int| 0 <= k < i ==> res@[k] as int == padded_le_word(data@, k),
        decreases size_aligned - i,
    {
        let base = i * 4;
        let b0 = byte_or_zero_at(data, base, 0);
        let b1 = byte_or_zero_at(data, base, 1);
        let b2 = byte_or_zero_at(data, base, 2);
        let b3 = byte_or_zero_at(data, base, 3);
        let word: u32 = b0 + b1 * 256 + b2 * 65536 + b3 * 16777216;
        res.push(word);
        i = i + 1;
    }
    res
}

/// Weight of byte `j` (0 to 3) of a little-endian u32.
pub open spec fn byte_weight(j: int) -> int {
    if j == 0 {
        1
    } else if j == 1 {
        256
    } else if j == 2 {
        65536
    } else {
        16777216
    }
}

/// Packing loses no byte: byte `k` of the data is byte `k % 4` of word
/// `k / 4`.
pub proof fn lemma_as_u32_vec_keeps_bytes(data: Seq<u8>, words: Seq<u32>, k: int)
    requires
        words.len() == word_count(data.len() as int),
        forall|i: int| 0 <= i < words.len() ==> words[i] as int == padded_le_word(data, i),
        0 <= k < data.len(),
    ensures
        (words[k / 4] as int / byte_weight(k % 4)) % 256 == data[k] as int,
{
    let i = k / 4;
    let j = k % 4;
    let b0 = byte_or_zero(data, 4 * i);
    let b1 = byte_or_zero(data, 4 * i + 1);
    let b2 = byte_or_zero(data, 4 * i + 2);
    let b3 = byte_or_zero(data, 4 * i + 3);
    assert(0 <= b0 < 256 && 0 <= b1 < 256 && 0 <= b2 < 256 && 0 <= b3 < 256);
    let w = words[i] as int;
    assert(w == b0 + 256 * b1 + 65536 * b2 + 16777216 * b3);
    assert(k == 4 * i + j);
    if j == 0 {
        assert((w / 1) % 256 == b0) by (nonlinear_arith)
            requires
                w == b0 + 256 * b1 + 65536 * b2 + 16777216 * b3,
                0 <= b0 < 256,
                0 <= b1 < 256,
                0 <= b2 < 256,
                0 <= b3 < 256,
        ;
    } else if j == 1 {
        assert((w / 256) % 256 == b1) by (nonlinear_arith)
            requires
                w == b0 + 256 * b1 + 65536 * b2 + 16777216 * b3,
                0 <= b0 < 256,
                0 <= b1 < 256,
                0 <= b2 < 256,
                0 <= b3 < 256,
        ;
    } else if j == 2 {
        assert((w / 65536) % 256 == b2) by (nonlinear_arith)
            requires
                w == b0 + 256 * b1 + 65536 * b2 + 16777216 * b3,
                0 <= b0 < 256,
                0 <= b1 < 256,
                0 <= b2 < 256,
                0 <= b3 < 256,
        ;
    } else {
        assert((w / 16777216) % 256 == b3) by (nonlinear_arith)
            requires
                w == b0 + 256 * b1 + 65536 * b2 + 16777216 * b3,
                0 <= b0 < 256,
                0 <= b1 < 256,
                0 <= b2 < 256,
                0 <= b3 < 256,
        ;
    }
}

/// Bytes per texel of `format`; only the 8-bit UNORM formats with one to
/// four channels are known.
pub open spec fn format_size(format: i32) -> int {
    if format == vk::FORMAT_R8_UNORM {
        1
    } else if format == vk::FORMAT_R8G8_UNORM {
        2
    } else if format == vk::FORMAT_R8G8B8_UNORM {
        3
    } else if format == vk::FORMAT_R8G8B8A8_UNORM {
        4
    } else {
        0
    }
}

/// `format` is one whose texel size is known.
pub open spec fn format_size_known(format: i32) -> bool {
    format_size(format) > 0
}

/// Bytes per texel of `format`.
pub fn get_format_size(format: i32) -> (r: u32)
    requires
        format_size_known(format),
    ensures
        r == format_size(format),
{
    if format == vk::FORMAT_R8_UNORM {
        1
    } else if format == vk::FORMAT_R8G8_UNORM {
        2
    } else if format == vk::FORMAT_R8G8B8_UNORM {
        3
    } else {
        4
    }
}

/// Integer base-2 logarithm, rounded down; 0 for 0 and 1.
pub open spec fn floor_log2(n: nat) -> nat
    decreases n,
{
    if n <= 1 {
        0
    } else {
        1 + floor_log2(n / 2)
    }
}

/// Levels of a full mip pyramid for an image whose larger side is `m`.
pub open spec fn mip_pyramid_levels(m: nat) -> nat {
    floor_log2(m) + 1
}

/// Number of levels of a full mip pyramid for a `width` by `height` image:
/// one more than the base-2 logarithm of the larger side, rounded down.
pub fn compute_mip_pyramid_levels(width: u32, height: u32) -> (r: u32)
    ensures
        r == mip_pyramid_levels(if width >= height { width as nat } else { height as nat }),
        1 <= r <= 32,
{
    let max = if width >= height { width } else { height };
    let mut m = max;
    let mut levels: u32 = 1;
    proof {
        lemma_floor_log2_bound(max as nat);
    }
    while m > 1
        invariant
            1 <= levels,
            floor_log2(max as nat) + 1 == floor_log2(m as nat) + levels,
            floor_log2(m as nat) + levels <= 32,
        decreases m,
    {
        m = m / 2;
        levels = levels + 1;
    }
    levels
}

/// `floor_log2` of a u32 is below 32.
proof fn lemma_floor_log2_bound(n: nat)
    requires
        n <= u32::MAX,
    ensures
        floor_log2(n) <= 31,
{
    lemma_floor_log2_pow2(n);
    vstd::arithmetic::power2::lemma2_to64();
    if floor_log2(n) > 32 {
        vstd::arithmetic::power2::lemma_pow2_strictly_increases(32, floor_log2(n));
    }
}

/// For `n >= 1`, `2^floor_log2(n) <= n < 2^(floor_log2(n) + 1)`.
pub proof fn lemma_floor_log2_pow2(n: nat)
    ensures
        n >= 1 ==> pow2(floor_log2(n)) <= n < pow2(floor_log2(n) + 1),
    decreases n,
{
    vstd::arithmetic::power2::lemma_pow2_unfold(floor_log2(n) + 1);
    if n >= 2 {
        lemma_floor_log2_pow2(n / 2);
        vstd::arithmetic::power2::lemma_pow2_unfold(floor_log2(n));
        vstd::arithmetic::power2::lemma_pow2_unfold(floor_log2(n / 2) + 1);
    } else if n == 1 {
        vstd::arithmetic::power2::lemma2_to64();
    }
}

/// A full pyramid has just enough levels: the larger side `m >= 1`
/// satisfies `2^(levels - 1) <= m < 2^levels`.
pub proof fn lemma_mip_pyramid_levels_bounds(m: nat)
    requires
        m >= 1,
    ensures
        pow2((mip_pyramid_levels(m) - 1) as nat) <= m < pow2(mip_pyramid_levels(m)),
{
    lemma_floor_log2_pow2(m);
}

} // verus!
