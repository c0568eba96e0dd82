//! Descriptor pools and set layouts that hold one of each descriptor type
//! asked for, and finding a type's binding in such a layout.
use vstd::prelude::*;
use crate::layout::LayoutBinding;
use crate::vk;

verus! {

/// How many descriptors of one type a pool holds.
#[derive(Debug, Clone, Copy, PartialEq, Eq, Structural)]
pub struct DescriptorPoolSize {
    /// The Vulkan descriptor type.
    pub ty: i32,
    pub descriptor_count: u32,
}

/// The pool sizes of a pool holding `count` descriptors of each type of
/// `desc_types`, in order.
pub fn simple_descriptor_pool_sizes(desc_types: &[i32], count: u32) -> (r: Vec<DescriptorPoolSize>)
    ensures
        r@.len() == desc_types@.len(),
        forall|i: int| 0 <= i < r@.len() ==> #[trigger] r@[i] == (DescriptorPoolSize { ty: desc_types@[i], descriptor_count: count }),
{
    let mut sizes: Vec<DescriptorPoolSize> = Vec::new();
    let mut i: usize = 0;
    while i < desc_types.len()
        invariant
            i <= desc_types@.len(),
            sizes@.len() == i,
            forall|k: int| 0 <= k < i ==> #[trigger] sizes@[k] == (DescriptorPoolSize { ty: desc_types@[k], descriptor_count: count }),
        decreases desc_types@.len() - i,
    {
        sizes.push(DescriptorPoolSize { ty: desc_types[i], descriptor_count: count });
        i = i + 1;
    }
    sizes
}

/// The binding of a simple layout for type `ty` at position `i`: binding
/// number `i`, one descriptor, usable by `stage_flags`, except that input
/// attachments are only usable by the fragment stage.
pub open spec fn simple_layout_binding(i: int, ty: i32, stage_flags: u32) -> LayoutBinding {
    LayoutBinding {
        binding: i as u32,
        descriptor_type: ty,
        descriptor_count: 1,
        stage_flags: if ty == vk::DESCRIPTOR_TYPE_INPUT_ATTACHMENT { vk::STAGE_FRAGMENT } else { stage_flags },
    }
}

/// The bindings of a layout holding one descriptor of each type of
/// `desc_types`, the type at position `i` bound at binding `i`.
pub fn simple_descriptor_set_layout_bindings(desc_types: &[i32], stage_flags: u32) -> (r: Vec<LayoutBinding>)
    ensures
        r@.len() == desc_types@.len(),
        forall|i: int| 0 <= i < r@.len() ==> #[trigger] r@[i] == simple_layout_binding(i, desc_types@[i], stage_flags),
{
    let mut bindings: Vec<LayoutBinding> = Vec::new();
    let mut i: usize = 0;
    while i < desc_types.len()
        invariant
            i <= desc_types@.len(),
            bindings@.len() == i,
            forall|k: int| 0 <= k < i ==> #[trigger] bindings@[k] == simple_layout_binding(k, desc_types@[k], stage_flags),
        decreases desc_types@.len() - i,
    {
        let ty = desc_types[i];
        let stage = if ty == vk::DESCRIPTOR_TYPE_INPUT_ATTACHMENT { vk::STAGE_FRAGMENT } else { stage_flags };
        bindings.push(LayoutBinding {
            binding: #[verifier::truncate] (i as u32),
            descriptor_type: ty,
            descriptor_count: 1,
            stage_flags: stage,
        });
        i = i + 1;
    }
    bindings
}

/// `s` is sorted in ascending order.
pub open spec fn sorted_ascending(s: Seq<i32>) -> bool {
    forall|i: int, j: int| 0 <= i <= j < s.len() ==> s[i] <= s[j]
}

/// The binding of type `t` in a simple layout over the sorted types
/// `desc_types`, found by binary search.
pub fn get_dst_binding(desc_types: &[i32], t: i32) -> (r: u32)
    requires
        sorted_ascending(desc_types@),
        exists|i: int| 0 <= i < desc_types@.len() && desc_types@[i] == t,
    ensures
        exists|i: int| 0 <= i < desc_types@.len() && desc_types@[i] == t && r == i as u32,
{
    let mut lo: usize = 0;
    let mut hi: usize = desc_types.len();
    while lo < hi
        invariant
            sorted_ascending(desc_types@),
            exists|i: int| 0 <= i < desc_types@.len() && desc_types@[i] == t,
            lo <= hi <= desc_types@.len(),
            forall|i: int| 0 <= i < lo ==> desc_types@[i] < t,
            forall|i: int| hi <= i < desc_types@.len() ==> desc_types@[i] > t,
        decreases hi - lo,
    {
        let mid = lo + (hi - lo) / 2;
        let v = desc_types[mid];
        if v < t {
            lo = mid + 1;
        } else if v > t {
            hi = mid;
        } else {
            return #[verifier::truncate] (mid as u32);
        }
    }
    proof {
        let i = choose|i: int| 0 <= i < desc_types@.len() && desc_types@[i] == t;
        assert(i < lo || i >= hi);
    }
    0
}

} // verus!
