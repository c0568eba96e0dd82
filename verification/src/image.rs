//! Raw image data laid out level after level in one buffer, and the copy
//! regions that upload each level to its mip level.
use vstd::prelude::*;
use vstd::arithmetic::power2::pow2;
use crate::utils::{format_size, format_size_known, get_format_size, mip_pyramid_levels};
use crate::vk;

verus! {

/// Width, height and depth of an image or image level.
#[derive(Debug, Clone, Copy, PartialEq, Eq, Structural)]
pub struct Extent3D {
    pub width: u32,
    pub height: u32,
    pub depth: u32,
}

/// Width and height of an image level.
#[derive(Debug, Clone, Copy, PartialEq, Eq, Structural)]
pub struct Extent2D {
    pub width: u32,
    pub height: u32,
}

/// Where one level of a generated gradient image starts, and its extent.
#[derive(Debug, Clone, Copy, PartialEq, Eq, Structural)]
pub struct GradientImageLevelInfo {
    pub extent: Extent2D,
    pub start_position: usize,
}

/// A texel offset into an image.
#[derive(Debug, Clone, Copy, PartialEq, Eq, Structural)]
pub struct Offset3D {
    pub x: i32,
    pub y: i32,
    pub z: i32,
}

/// The aspects, mip level and array layers of an image a copy touches.
#[derive(Debug, Clone, Copy, PartialEq, Eq, Structural)]
pub struct ImageSubresourceLayers {
    pub aspect_mask: u32,
    pub mip_level: u32,
    pub base_array_layer: u32,
    pub layer_count: u32,
}

/// One buffer-to-image copy region.
#[derive(Debug, Clone, Copy, PartialEq, Eq, Structural)]
pub struct BufferImageCopy {
    pub buffer_offset: u64,
    pub buffer_row_length: u32,
    pub buffer_image_height: u32,
    pub image_subresource: ImageSubresourceLayers,
    pub image_offset: Offset3D,
    pub image_extent: Extent3D,
}

/// Where one level of raw image data starts, and its extent.
#[derive(Debug, Clone, Copy, PartialEq, Eq, Structural)]
pub struct RawImageLevelInfo {
    pub extent: Extent3D,
    pub start_position: usize,
}

/// The copy region that uploads a level from its start position to mip
/// level `mip_level`, layer 0.
pub open spec fn level_buffer_copy(info: RawImageLevelInfo, aspect_mask: u32, mip_level: u32) -> BufferImageCopy {
    BufferImageCopy {
        buffer_offset: info.start_position as u64,
        buffer_row_length: 0,
        buffer_image_height: 0,
        image_subresource: ImageSubresourceLayers { aspect_mask, mip_level, base_array_layer: 0, layer_count: 1 },
        image_offset: Offset3D { x: 0, y: 0, z: 0 },
        image_extent: info.extent,
    }
}

/// Bytes of a level of `info`'s extent in `format` (depth not counted).
pub open spec fn level_size(info: RawImageLevelInfo, format: i32) -> int {
    info.extent.height * info.extent.width * format_size(format)
}

/// The level's size is known and fits in a `u32`.
pub open spec fn level_size_fits(info: RawImageLevelInfo, format: i32) -> bool {
    format_size_known(format) && level_size(info, format) <= u32::MAX
}

impl RawImageLevelInfo {
    /// The copy region that uploads this level to mip level `mip_level`.
    pub fn buffer_copy(&self, aspect_mask: u32, mip_level: u32) -> (r: BufferImageCopy)
        ensures
            r == level_buffer_copy(*self, aspect_mask, mip_level),
    {
        BufferImageCopy {
            buffer_offset: self.start_position as u64,
            buffer_row_length: 0,
            buffer_image_height: 0,
            image_subresource: ImageSubresourceLayers { aspect_mask, mip_level, base_array_layer: 0, layer_count: 1 },
            image_offset: Offset3D { x: 0, y: 0, z: 0 },
            image_extent: self.extent,
        }
    }

    /// Bytes of this level in `format`: height times width times texel size.
    pub fn size(&self, format: i32) -> (r: u32)
        requires
            level_size_fits(*self, format),
        ensures
            r == level_size(*self, format),
    {
        let texel = get_format_size(format);
        let h = self.extent.height;
        let w = self.extent.width;
        proof {
            assert(h * w <= h * w * texel) by (nonlinear_arith)
                requires
                    texel >= 1,
            ;
        }
        let pixel_count = h * w;
        pixel_count * texel
    }
}

/// Image data in one buffer, level after level, with where each level lies.
#[derive(Debug, Clone)]
pub struct RawImageData {
    /// The Vulkan format of the texels.
    pub format: i32,
    pub data: Vec<u8>,
    pub level_infos: Vec<RawImageLevelInfo>,
}

impl RawImageData {
    pub fn new(format: i32, data: Vec<u8>, level_infos: Vec<RawImageLevelInfo>) -> (r: Self)
        ensures
            r.format == format,
            r.data@ == data@,
            r.level_infos@ == level_infos@,
    {
        RawImageData { format, data, level_infos }
    }

    /// Bytes of data held.
    pub fn raw_size(&self) -> (r: usize)
        ensures
            r == self.data@.len(),
    {
        self.data.len()
    }

    /// Number of levels.
    pub fn level_count(&self) -> (r: usize)
        ensures
            r == self.level_infos@.len(),
    {
        self.level_infos.len()
    }

    /// Bytes of level `level`; `None` when there is no such level.
    pub fn size(&self, level: u32) -> (r: Option<u32>)
        requires
            level < self.level_infos@.len() ==> level_size_fits(self.level_infos@[level as int], self.format),
        ensures
            r is Some <==> level < self.level_infos@.len(),
            r matches Some(n) ==> n == level_size(self.level_infos@[level as int], self.format),
    {
        if (level as usize) < self.level_infos.len() {
            Some(self.level_infos[level as usize].size(self.format))
        } else {
            None
        }
    }

    /// The copy regions that upload every level to the mip level of its
    /// position.
    pub fn copy_regions(&self, aspect_mask: u32) -> (r: Vec<BufferImageCopy>)
        ensures
            r@.len() == self.level_infos@.len(),
            forall|i: int| 0 <= i < r@.len() ==> #[trigger] r@[i] == level_buffer_copy(self.level_infos@[i], aspect_mask, i as u32),
    {
        let mut res: Vec<BufferImageCopy> = Vec::new();
        let mut i: usize = 0;
        while i < self.level_infos.len()
            invariant
                i <= self.level_infos@.len(),
                res@.len() == i,
                forall|k: int| 0 <= k < i ==> #[trigger] res@[k] == level_buffer_copy(self.level_infos@[k], aspect_mask, k as u32),
            decreases self.level_infos@.len() - i,
        {
            res.push(self.level_infos[i].buffer_copy(aspect_mask, #[verifier::truncate] (i as u32)));
            i = i + 1;
        }
        res
    }

    /// One-level RGBA8 image data from a `width` by `height` image's bytes.
    pub fn from_rgba8(width: u32, height: u32, pixels: Vec<u8>) -> (r: Self)
        ensures
            r.format == vk::FORMAT_R8G8B8A8_UNORM,
            r.data@ == pixels@,
            r.level_infos@ == seq![RawImageLevelInfo { extent: Extent3D { width, height, depth: 1 }, start_position: 0 }],
    {
        let mut level_infos: Vec<RawImageLevelInfo> = Vec::new();
        level_infos.push(RawImageLevelInfo { extent: Extent3D { width, height, depth: 1 }, start_position: 0 });
        RawImageData { format: vk::FORMAT_R8G8B8A8_UNORM, data: pixels, level_infos }
    }

    /// One-level RGB8 image data from a `width` by `height` image's bytes.
    pub fn from_rgb8(width: u32, height: u32, pixels: Vec<u8>) -> (r: Self)
        ensures
            r.format == vk::FORMAT_R8G8B8_UNORM,
            r.data@ == pixels@,
            r.level_infos@ == seq![RawImageLevelInfo { extent: Extent3D { width, height, depth: 1 }, start_position: 0 }],
    {
        let mut level_infos: Vec<RawImageLevelInfo> = Vec::new();
        level_infos.push(RawImageLevelInfo { extent: Extent3D { width, height, depth: 1 }, start_position: 0 });
        RawImageData { format: vk::FORMAT_R8G8B8_UNORM, data: pixels, level_infos }
    }
}

/// One side of mip level `level` of a side `d`: halved per level, rounded
/// down, and at least 1.
pub open spec fn mip_side(d: nat, level: nat) -> nat {
    let q = d / pow2(level);
    if q >= 1 {
        q
    } else {
        1
    }
}

/// The extent of mip level `level` of a `width` by `height` image.
pub open spec fn mip_extent(width: u32, height: u32, level: nat) -> Extent3D {
    Extent3D { width: mip_side(width as nat, level) as u32, height: mip_side(height as nat, level) as u32, depth: 1 }
}

/// The extent of mip level `level` of a `width` by `height` image: each
/// side shifted right by `level`, at least 1.
pub fn mip_level_extent(width: u32, height: u32, level: u32) -> (r: Extent3D)
    requires
        level < 32,
    ensures
        r == mip_extent(width, height, level as nat),
{
    proof {
        vstd::bits::lemma_u32_shr_is_div(width, level);
        vstd::bits::lemma_u32_shr_is_div(height, level);
        vstd::arithmetic::power2::lemma_pow2_pos(level as nat);
    }
    let w = width >> level;
    let h = height >> level;
    Extent3D { width: if w >= 1 { w } else { 1 }, height: if h >= 1 { h } else { 1 }, depth: 1 }
}

/// The first `n` levels' bytes, one after the other.
pub open spec fn concat_levels(levels: Seq<Seq<u8>>, n: int) -> Seq<u8>
    decreases n,
{
    if n <= 0 {
        Seq::empty()
    } else {
        concat_levels(levels, n - 1) + levels[n - 1]
    }
}

/// An RGBA8 mip chain of a `width` by `height` image from the bytes of
/// each level, level 0 first: the levels are laid one after the other,
/// each recorded with its mip extent and where its bytes start.
pub fn from_rgba8_mip_levels(width: u32, height: u32, levels: Vec<Vec<u8>>) -> (r: RawImageData)
    requires
        levels@.len() <= 32,
    ensures
        r.format == vk::FORMAT_R8G8B8A8_UNORM,
        r.data@ == concat_levels(levels@.map_values(|l: Vec<u8>| l@), levels@.len() as int),
        r.level_infos@.len() == levels@.len(),
        forall|i: int| 0 <= i < levels@.len() ==> #[trigger] r.level_infos@[i] == (RawImageLevelInfo {
            extent: mip_extent(width, height, i as nat),
            start_position: concat_levels(levels@.map_values(|l: Vec<u8>| l@), i).len() as usize,
        }),
{
    let ghost ls = levels@.map_values(|l: Vec<u8>| l@);
    let mut data: Vec<u8> = Vec::new();
    let mut level_infos: Vec<RawImageLevelInfo> = Vec::new();
    let mut level: usize = 0;
    while level < levels.len()
        invariant
            ls == levels@.map_values(|l: Vec<u8>| l@),
            levels@.len() <= 32,
            level <= levels@.len(),
            data@ == concat_levels(ls, level as int),
            level_infos@.len() == level,
            forall|i: int| 0 <= i < level ==> #[trigger] level_infos@[i] == (RawImageLevelInfo {
                extent: mip_extent(width, height, i as nat),
                start_position: concat_levels(ls, i).len() as usize,
            }),
        decreases levels@.len() - level,
    {
        let extent = mip_level_extent(width, height, level as u32);
        level_infos.push(RawImageLevelInfo { extent, start_position: data.len() });
        let bytes = &levels[level];
        let ghost before = data@;
        let mut k: usize = 0;
        while k < bytes.len()
            invariant
                k <= bytes@.len(),
                data@ == before + bytes@.take(k as int),
            decreases bytes@.len() - k,
        {
            data.push(bytes[k]);
            proof {
                assert(bytes@.take(k + 1) =~= bytes@.take(k as int).push(bytes@[k as int]));
            }
            k = k + 1;
        }
        proof {
            assert(bytes@.take(bytes@.len() as int) =~= bytes@);
            assert(ls[level as int] == bytes@);
        }
        level = level + 1;
    }
    RawImageData { format: vk::FORMAT_R8G8B8A8_UNORM, data, level_infos }
}

/// Level `i` of a concatenation lies right after the levels before it.
pub proof fn lemma_concat_levels_layout(levels: Seq<Seq<u8>>, n: int, i: int)
    requires
        0 <= i < n <= levels.len(),
    ensures
        concat_levels(levels, i + 1).len() == concat_levels(levels, i).len() + levels[i].len(),
        concat_levels(levels, n).subrange(concat_levels(levels, i).len() as int, concat_levels(levels, i + 1).len() as int) == levels[i],
    decreases n,
{
    if i + 1 < n {
        lemma_concat_levels_layout(levels, n - 1, i);
        lemma_concat_levels_prefix(levels, n - 1, i + 1);
        assert(concat_levels(levels, n).subrange(concat_levels(levels, i).len() as int, concat_levels(levels, i + 1).len() as int)
            =~= concat_levels(levels, n - 1).subrange(concat_levels(levels, i).len() as int, concat_levels(levels, i + 1).len() as int));
    } else {
        assert(concat_levels(levels, n).subrange(concat_levels(levels, i).len() as int, concat_levels(levels, i + 1).len() as int) =~= levels[i]);
    }
}

/// A concatenation of fewer levels is no longer than one of more.
proof fn lemma_concat_levels_prefix(levels: Seq<Seq<u8>>, n: int, m: int)
    requires
        0 <= m <= n,
    ensures
        concat_levels(levels, m).len() <= concat_levels(levels, n).len(),
    decreases n,
{
    if m < n {
        lemma_concat_levels_prefix(levels, n - 1, m);
    }
}

/// A mip chain built with `from_rgba8_mip_levels` holds each level's bytes
/// at the level's start position, directly after the level before it, and
/// its copy regions read each level from there.
pub proof fn lemma_mip_chain_layout(width: u32, height: u32, levels: Seq<Seq<u8>>, chain: RawImageData, aspect_mask: u32, i: int)
    requires
        0 <= i < levels.len(),
        chain.data@ == concat_levels(levels, levels.len() as int),
        chain.level_infos@.len() == levels.len(),
        forall|k: int| 0 <= k < levels.len() ==> #[trigger] chain.level_infos@[k] == (RawImageLevelInfo {
            extent: mip_extent(width, height, k as nat),
            start_position: concat_levels(levels, k).len() as usize,
        }),
        chain.data@.len() <= usize::MAX,
    ensures
        chain.data@.subrange(
            chain.level_infos@[i].start_position as int,
            chain.level_infos@[i].start_position + levels[i].len(),
        ) == levels[i],
        i + 1 < levels.len() ==> chain.level_infos@[i + 1].start_position == chain.level_infos@[i].start_position + levels[i].len(),
        level_buffer_copy(chain.level_infos@[i], aspect_mask, i as u32).buffer_offset == chain.level_infos@[i].start_position,
{
    lemma_concat_levels_layout(levels, levels.len() as int, i);
    lemma_concat_levels_prefix(levels, levels.len() as int, i + 1);
}

/// A full mip pyramid ends at a 1 by 1 level, and only there: with
/// `levels` from `compute_mip_pyramid_levels`, the last level is 1 by 1 and
/// the one before it is larger.
pub proof fn lemma_full_pyramid_ends_at_one_texel(width: u32, height: u32)
    requires
        width >= 1 || height >= 1,
    ensures
        ({
            let m = if width >= height { width as nat } else { height as nat };
            let n = mip_pyramid_levels(m);
            &&& mip_extent(width, height, (n - 1) as nat).width == 1
            &&& mip_extent(width, height, (n - 1) as nat).height == 1
            &&& n >= 2 ==> (mip_extent(width, height, (n - 2) as nat).width > 1 || mip_extent(width, height, (n - 2) as nat).height > 1)
        }),
{
    let m: nat = if width >= height { width as nat } else { height as nat };
    let n = mip_pyramid_levels(m);
    crate::utils::lemma_mip_pyramid_levels_bounds(m);
    let p = pow2((n - 1) as nat);
    vstd::arithmetic::power2::lemma_pow2_unfold(n);
    vstd::arithmetic::power2::lemma_pow2_pos((n - 1) as nat);
    assert((width as nat) / p < 2) by (nonlinear_arith)
        requires
            width as nat <= m,
            m < 2 * p,
            p > 0,
    ;
    assert((height as nat) / p < 2) by (nonlinear_arith)
        requires
            height as nat <= m,
            m < 2 * p,
            p > 0,
    ;
    if n >= 2 {
        let q = pow2((n - 2) as nat);
        vstd::arithmetic::power2::lemma_pow2_unfold((n - 1) as nat);
        vstd::arithmetic::power2::lemma_pow2_pos((n - 2) as nat);
        assert(m / q >= 2) by (nonlinear_arith)
            requires
                p <= m,
                p == 2 * q,
                q > 0,
        ;
    }
}

} // verus!
