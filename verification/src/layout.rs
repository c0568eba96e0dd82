//! Descriptor-set layouts planned from the descriptor bindings a shader
//! declares: one layout per set number up to the largest one used.
use vstd::prelude::*;
use crate::reflection::{
    sets_view, ReflectedBinding, ReflectedDescriptorSet, REFLECT_SAMPLER, REFLECT_COMBINED_IMAGE_SAMPLER,
    REFLECT_SAMPLED_IMAGE, REFLECT_STORAGE_IMAGE, REFLECT_UNIFORM_TEXEL_BUFFER,
    REFLECT_STORAGE_TEXEL_BUFFER, REFLECT_UNIFORM_BUFFER, REFLECT_STORAGE_BUFFER,
    REFLECT_UNIFORM_BUFFER_DYNAMIC, REFLECT_STORAGE_BUFFER_DYNAMIC, REFLECT_INPUT_ATTACHMENT,
    REFLECT_ACCELERATION_STRUCTURE,
};
use crate::vk;

verus! {

/// A binding's (binding number, descriptor type index, count).
pub type BindingView = (u32, u32, u32);

/// A set's number and bindings.
pub type SetView = (u32, Seq<BindingView>);

/// One binding of a descriptor-set layout to create.
#[derive(Debug, Clone, Copy, PartialEq, Eq, Structural)]
pub struct LayoutBinding {
    pub binding: u32,
    /// The Vulkan descriptor type.
    pub descriptor_type: i32,
    pub descriptor_count: u32,
    /// The stages that may use the binding.
    pub stage_flags: u32,
}

/// A descriptor-set layout to create: its bindings, the per-binding flags
/// to chain (empty when none are chained) and the layout's create flags.
#[derive(Debug)]
pub struct SetLayoutPlan {
    pub bindings: Vec<LayoutBinding>,
    pub binding_flags: Vec<u32>,
    pub flags: u32,
}

impl View for SetLayoutPlan {
    type V = (Seq<LayoutBinding>, Seq<u32>, u32);

    open spec fn view(&self) -> (Seq<LayoutBinding>, Seq<u32>, u32) {
        (self.bindings@, self.binding_flags@, self.flags)
    }
}

/// The views of a sequence of layout plans.
pub open spec fn plans_view(s: Seq<SetLayoutPlan>) -> Seq<(Seq<LayoutBinding>, Seq<u32>, u32)> {
    s.map_values(|p: SetLayoutPlan| p@)
}

/// The type index names a descriptor type (it is not `Undefined`).
pub open spec fn descriptor_type_defined(t: u32) -> bool {
    REFLECT_SAMPLER <= t <= REFLECT_ACCELERATION_STRUCTURE
}

/// Every binding of every set has a defined descriptor type.
pub open spec fn all_descriptor_types_defined(sets: Seq<SetView>) -> bool {
    forall|i: int, j: int| 0 <= i < sets.len() && 0 <= j < sets[i].1.len() ==> descriptor_type_defined(#[trigger] sets[i].1[j].1)
}

/// The Vulkan descriptor type of a defined type index.
pub open spec fn vk_descriptor_type(t: u32) -> i32 {
    if t == REFLECT_SAMPLER {
        vk::DESCRIPTOR_TYPE_SAMPLER
    } else if t == REFLECT_COMBINED_IMAGE_SAMPLER {
        vk::DESCRIPTOR_TYPE_COMBINED_IMAGE_SAMPLER
    } else if t == REFLECT_SAMPLED_IMAGE {
        vk::DESCRIPTOR_TYPE_SAMPLED_IMAGE
    } else if t == REFLECT_STORAGE_IMAGE {
        vk::DESCRIPTOR_TYPE_STORAGE_IMAGE
    } else if t == REFLECT_UNIFORM_TEXEL_BUFFER {
        vk::DESCRIPTOR_TYPE_UNIFORM_TEXEL_BUFFER
    } else if t == REFLECT_STORAGE_TEXEL_BUFFER {
        vk::DESCRIPTOR_TYPE_STORAGE_TEXEL_BUFFER
    } else if t == REFLECT_UNIFORM_BUFFER {
        vk::DESCRIPTOR_TYPE_UNIFORM_BUFFER
    } else if t == REFLECT_STORAGE_BUFFER {
        vk::DESCRIPTOR_TYPE_STORAGE_BUFFER
    } else if t == REFLECT_UNIFORM_BUFFER_DYNAMIC {
        vk::DESCRIPTOR_TYPE_UNIFORM_BUFFER_DYNAMIC
    } else if t == REFLECT_STORAGE_BUFFER_DYNAMIC {
        vk::DESCRIPTOR_TYPE_STORAGE_BUFFER_DYNAMIC
    } else if t == REFLECT_INPUT_ATTACHMENT {
        vk::DESCRIPTOR_TYPE_INPUT_ATTACHMENT
    } else {
        vk::DESCRIPTOR_TYPE_ACCELERATION_STRUCTURE_KHR
    }
}

/// Samplers and images may be updated after binding; buffers and input
/// attachments are not.
pub open spec fn updatable_after_bind(t: u32) -> bool {
    t == REFLECT_SAMPLER || t == REFLECT_COMBINED_IMAGE_SAMPLER || t == REFLECT_SAMPLED_IMAGE
        || t == REFLECT_STORAGE_IMAGE
}

/// The descriptor types that may be updated after binding are exactly the
/// sampler, combined image sampler, sampled image and storage image, the
/// variants of index 1 to 4.
pub proof fn lemma_updatable_after_bind_types()
    ensures
        forall|t: u32| #[trigger] updatable_after_bind(t) <==> 1 <= t <= 4,
{
}

/// The layout binding for a reflected binding.
pub open spec fn layout_binding(b: BindingView, stage: u32) -> LayoutBinding {
    LayoutBinding { binding: b.0, descriptor_type: vk_descriptor_type(b.1), descriptor_count: b.2, stage_flags: stage }
}

/// The binding flags of a reflected binding.
pub open spec fn binding_flag(b: BindingView) -> u32 {
    if updatable_after_bind(b.1) {
        vk::DESCRIPTOR_BINDING_UPDATE_AFTER_BIND
    } else {
        0
    }
}

/// Some binding of `bs` may be updated after binding.
pub open spec fn any_updatable(bs: Seq<BindingView>) -> bool {
    exists|j: int| 0 <= j < bs.len() && updatable_after_bind(#[trigger] bs[j].1)
}

/// The plan of a layout for bindings `bs`. With `update_after_bind` and a
/// binding that may be updated after binding, the layout is created for an
/// update-after-bind pool and carries per-binding flags.
pub open spec fn set_layout_plan(bs: Seq<BindingView>, stage: u32, update_after_bind: bool) -> (Seq<LayoutBinding>, Seq<u32>, u32) {
    let chained = update_after_bind && any_updatable(bs);
    (
        bs.map_values(|b: BindingView| layout_binding(b, stage)),
        if chained { bs.map_values(|b: BindingView| binding_flag(b)) } else { Seq::empty() },
        if chained { vk::DESCRIPTOR_SET_LAYOUT_CREATE_UPDATE_AFTER_BIND_POOL } else { 0 },
    )
}

/// The largest set number of `sets`; 0 when there is none.
pub open spec fn max_set_number(sets: Seq<SetView>) -> int
    decreases sets.len(),
{
    if sets.len() == 0 {
        0
    } else {
        let m = max_set_number(sets.drop_last());
        if sets.last().0 > m {
            sets.last().0 as int
        } else {
            m
        }
    }
}

/// The bindings of the last set of `sets` numbered `n`; none when no set
/// has that number.
pub open spec fn bindings_of_set(sets: Seq<SetView>, n: int) -> Seq<BindingView>
    decreases sets.len(),
{
    if sets.len() == 0 {
        Seq::empty()
    } else if sets.last().0 == n {
        sets.last().1
    } else {
        bindings_of_set(sets.drop_last(), n)
    }
}

/// One layout plan for each set number from 0 to the largest used.
pub open spec fn descriptor_set_layout_plans(sets: Seq<SetView>, stage: u32, update_after_bind: bool) -> Seq<(Seq<LayoutBinding>, Seq<u32>, u32)> {
    Seq::new(
        (max_set_number(sets) + 1) as nat,
        |n: int| set_layout_plan(bindings_of_set(sets, n), stage, update_after_bind),
    )
}

/// The Vulkan descriptor type of a defined type index.
fn vk_type_of(t: u32) -> (r: i32)
    requires
        descriptor_type_defined(t),
    ensures
        r == vk_descriptor_type(t),
{
    if t == REFLECT_SAMPLER {
        vk::DESCRIPTOR_TYPE_SAMPLER
    } else if t == REFLECT_COMBINED_IMAGE_SAMPLER {
        vk::DESCRIPTOR_TYPE_COMBINED_IMAGE_SAMPLER
    } else if t == REFLECT_SAMPLED_IMAGE {
        vk::DESCRIPTOR_TYPE_SAMPLED_IMAGE
    } else if t == REFLECT_STORAGE_IMAGE {
        vk::DESCRIPTOR_TYPE_STORAGE_IMAGE
    } else if t == REFLECT_UNIFORM_TEXEL_BUFFER {
        vk::DESCRIPTOR_TYPE_UNIFORM_TEXEL_BUFFER
    } else if t == REFLECT_STORAGE_TEXEL_BUFFER {
        vk::DESCRIPTOR_TYPE_STORAGE_TEXEL_BUFFER
    } else if t == REFLECT_UNIFORM_BUFFER {
        vk::DESCRIPTOR_TYPE_UNIFORM_BUFFER
    } else if t == REFLECT_STORAGE_BUFFER {
        vk::DESCRIPTOR_TYPE_STORAGE_BUFFER
    } else if t == REFLECT_UNIFORM_BUFFER_DYNAMIC {
        vk::DESCRIPTOR_TYPE_UNIFORM_BUFFER_DYNAMIC
    } else if t == REFLECT_STORAGE_BUFFER_DYNAMIC {
        vk::DESCRIPTOR_TYPE_STORAGE_BUFFER_DYNAMIC
    } else if t == REFLECT_INPUT_ATTACHMENT {
        vk::DESCRIPTOR_TYPE_INPUT_ATTACHMENT
    } else {
        vk::DESCRIPTOR_TYPE_ACCELERATION_STRUCTURE_KHR
    }
}

/// Plans the layout of one set from its bindings.
pub fn plan_set_layout(bindings: &Vec<ReflectedBinding>, stage: u32, update_after_bind: bool) -> (r: SetLayoutPlan)
    requires
        forall|j: int| 0 <= j < bindings@.len() ==> descriptor_type_defined(#[trigger] bindings@[j].descriptor_type),
    ensures
        r@ == set_layout_plan(bindings@.map_values(|b: ReflectedBinding| b@), stage, update_after_bind),
        ({
            let chained = update_after_bind && exists|j: int| 0 <= j < bindings@.len() && 1 <= #[trigger] bindings@[j].descriptor_type <= 4;
            &&& r.flags == (if chained { 2u32 } else { 0u32 })
            &&& !chained ==> r.binding_flags@.len() == 0
            &&& chained ==> r.binding_flags@.len() == bindings@.len()
            &&& chained ==> forall|j: int| 0 <= j < bindings@.len() ==> #[trigger] r.binding_flags@[j] == (if 1
                <= bindings@[j].descriptor_type <= 4 { 1u32 } else { 0u32 })
        }),
{
    let ghost bs = bindings@.map_values(|b: ReflectedBinding| b@);
    let mut layout_bindings: Vec<LayoutBinding> = Vec::new();
    let mut flags: Vec<u32> = Vec::new();
    let mut any = false;
    let mut j: usize = 0;
    while j < bindings.len()
        invariant
            bs == bindings@.map_values(|b: ReflectedBinding| b@),
            forall|k: int| 0 <= k < bindings@.len() ==> descriptor_type_defined(#[trigger] bindings@[k].descriptor_type),
            j <= bindings@.len(),
            layout_bindings@ == bs.take(j as int).map_values(|b: BindingView| layout_binding(b, stage)),
            flags@ == bs.take(j as int).map_values(|b: BindingView| binding_flag(b)),
            any == any_updatable(bs.take(j as int)),
        decreases bindings@.len() - j,
    {
        let b = bindings[j];
        let updatable = b.descriptor_type == REFLECT_SAMPLER || b.descriptor_type == REFLECT_COMBINED_IMAGE_SAMPLER
            || b.descriptor_type == REFLECT_SAMPLED_IMAGE || b.descriptor_type == REFLECT_STORAGE_IMAGE;
        let flag = if updatable { vk::DESCRIPTOR_BINDING_UPDATE_AFTER_BIND } else { 0 };
        layout_bindings.push(LayoutBinding {
            binding: b.binding,
            descriptor_type: vk_type_of(b.descriptor_type),
            descriptor_count: b.count,
            stage_flags: stage,
        });
        flags.push(flag);
        proof {
            let t0 = bs.take(j as int);
            let t1 = bs.take(j + 1);
            assert(t1 =~= t0.push(bs[j as int]));
            assert(t1.map_values(|b: BindingView| layout_binding(b, stage)) =~= t0.map_values(|b: BindingView| layout_binding(b, stage)).push(layout_binding(bs[j as int], stage)));
            assert(t1.map_values(|b: BindingView| binding_flag(b)) =~= t0.map_values(|b: BindingView| binding_flag(b)).push(binding_flag(bs[j as int])));
            if updatable {
                assert(updatable_after_bind(t1[j as int].1));
            }
            if any_updatable(t1) && !updatable {
                let k = choose|k: int| 0 <= k < t1.len() && updatable_after_bind(#[trigger] t1[k].1);
                assert(k < j);
                assert(t0[k] == t1[k]);
            }
            if any_updatable(t0) {
                let k = choose|k: int| 0 <= k < t0.len() && updatable_after_bind(#[trigger] t0[k].1);
                assert(t0[k] == t1[k]);
            }
        }
        any = any || updatable;
        j = j + 1;
    }
    proof {
        assert(bs.take(bindings@.len() as int) =~= bs);
        let direct = exists|j: int| 0 <= j < bindings@.len() && 1 <= #[trigger] bindings@[j].descriptor_type <= 4;
        if any_updatable(bs) {
            let k = choose|k: int| 0 <= k < bs.len() && updatable_after_bind(#[trigger] bs[k].1);
            assert(bs[k].1 == bindings@[k].descriptor_type);
        }
        if direct {
            let k = choose|k: int| 0 <= k < bindings@.len() && 1 <= #[trigger] bindings@[k].descriptor_type <= 4;
            assert(bs[k].1 == bindings@[k].descriptor_type);
            assert(updatable_after_bind(bs[k].1));
        }
        assert(any_updatable(bs) <==> direct);
        assert forall|j: int| 0 <= j < bindings@.len() implies #[trigger] flags@[j] == (if 1
            <= bindings@[j].descriptor_type <= 4 { 1u32 } else { 0u32 }) by {
            assert(bs[j].1 == bindings@[j].descriptor_type);
            assert(flags@[j] == binding_flag(bs[j]));
        }
    }
    let chained = update_after_bind && any;
    if chained {
        SetLayoutPlan { bindings: layout_bindings, binding_flags: flags, flags: vk::DESCRIPTOR_SET_LAYOUT_CREATE_UPDATE_AFTER_BIND_POOL }
    } else {
        SetLayoutPlan { bindings: layout_bindings, binding_flags: Vec::new(), flags: 0 }
    }
}

/// The largest set number among `sets`; 0 when there is none.
fn largest_set_number(sets: &Vec<ReflectedDescriptorSet>) -> (r: u32)
    ensures
        r as int == max_set_number(sets_view(sets@)),
{
    let ghost v = sets_view(sets@);
    let mut m: u32 = 0;
    let mut k: usize = 0;
    while k < sets.len()
        invariant
            v == sets_view(sets@),
            k <= sets@.len(),
            m as int == max_set_number(v.take(k as int)),
        decreases sets@.len() - k,
    {
        proof {
            assert(v.take(k + 1).drop_last() =~= v.take(k as int));
            assert(v.take(k + 1).last() == v[k as int]);
        }
        if sets[k].set > m {
            m = sets[k].set;
        }
        k = k + 1;
    }
    proof {
        assert(v.take(sets@.len() as int) =~= v);
    }
    m
}

/// Index of the last set of `sets` numbered `n`.
fn last_set_numbered(sets: &Vec<ReflectedDescriptorSet>, n: u32) -> (r: Option<usize>)
    ensures
        match r {
            Some(j) => j < sets@.len() && bindings_of_set(sets_view(sets@), n as int) == sets_view(sets@)[j as int].1,
            None => bindings_of_set(sets_view(sets@), n as int) == Seq::<BindingView>::empty(),
        },
{
    let ghost v = sets_view(sets@);
    let mut last: Option<usize> = None;
    let mut k: usize = 0;
    while k < sets.len()
        invariant
            v == sets_view(sets@),
            k <= sets@.len(),
            match last {
                Some(j) => j < k && bindings_of_set(v.take(k as int), n as int) == v[j as int].1,
                None => bindings_of_set(v.take(k as int), n as int) == Seq::<BindingView>::empty(),
            },
        decreases sets@.len() - k,
    {
        proof {
            assert(v.take(k + 1).drop_last() =~= v.take(k as int));
            assert(v.take(k + 1).last() == v[k as int]);
        }
        if sets[k].set == n {
            last = Some(k);
        }
        k = k + 1;
    }
    proof {
        assert(v.take(sets@.len() as int) =~= v);
    }
    last
}

/// Plans the descriptor-set layouts for the reflected sets of an entry
/// point, every binding usable by `stage`: one layout for each set number
/// from 0 to the largest one the shader uses. A number the shader does not
/// use gets an empty layout; where a number occurs twice, the later set
/// counts. Every binding must have a defined descriptor type.
pub fn create_descriptor_set_layouts(sets: &Vec<ReflectedDescriptorSet>, stage: u32, update_after_bind: bool) -> (r: Vec<SetLayoutPlan>)
    requires
        all_descriptor_types_defined(sets_view(sets@)),
    ensures
        plans_view(r@) == descriptor_set_layout_plans(sets_view(sets@), stage, update_after_bind),
{
    let ghost v = sets_view(sets@);
    let max_set = largest_set_number(sets);
    let mut plans: Vec<SetLayoutPlan> = Vec::new();
    let mut n: u64 = 0;
    while n <= max_set as u64
        invariant
            v == sets_view(sets@),
            all_descriptor_types_defined(v),
            max_set as int == max_set_number(v),
            n <= max_set as u64 + 1,
            plans@.len() == n,
            forall|i: int| 0 <= i < n ==> (#[trigger] plans@[i])@ == set_layout_plan(bindings_of_set(v, i), stage, update_after_bind),
        decreases max_set as u64 + 1 - n,
    {
        let plan = match last_set_numbered(sets, n as u32) {
            Some(j) => {
                proof {
                    assert forall|k: int| 0 <= k < sets@[j as int].bindings@.len() implies descriptor_type_defined(
                        #[trigger] sets@[j as int].bindings@[k].descriptor_type,
                    ) by {
                        assert(v[j as int].1[k].1 == sets@[j as int].bindings@[k].descriptor_type);
                    }
                }
                plan_set_layout(&sets[j].bindings, stage, update_after_bind)
            },
            None => {
                let empty: Vec<ReflectedBinding> = Vec::new();
                proof {
                    assert(empty@.map_values(|b: ReflectedBinding| b@) =~= Seq::<BindingView>::empty());
                }
                plan_set_layout(&empty, stage, update_after_bind)
            },
        };
        plans.push(plan);
        n = n + 1;
    }
    proof {
        assert(plans_view(plans@) =~= descriptor_set_layout_plans(v, stage, update_after_bind));
    }
    plans
}

/// Tells whether every binding of every set has a defined descriptor type,
/// as `create_descriptor_set_layouts` requires.
pub fn descriptor_types_defined(sets: &Vec<ReflectedDescriptorSet>) -> (r: bool)
    ensures
        r == all_descriptor_types_defined(sets_view(sets@)),
{
    let ghost v = sets_view(sets@);
    let mut i: usize = 0;
    while i < sets.len()
        invariant
            v == sets_view(sets@),
            i <= sets@.len(),
            forall|a: int, b: int| 0 <= a < i && 0 <= b < v[a].1.len() ==> descriptor_type_defined(#[trigger] v[a].1[b].1),
        decreases sets@.len() - i,
    {
        let bindings = &sets[i].bindings;
        let mut j: usize = 0;
        while j < bindings.len()
            invariant
                v == sets_view(sets@),
                i < sets@.len(),
                bindings@ == sets@[i as int].bindings@,
                j <= bindings@.len(),
                forall|a: int, b: int| 0 <= a < i && 0 <= b < v[a].1.len() ==> descriptor_type_defined(#[trigger] v[a].1[b].1),
                forall|b: int| 0 <= b < j ==> descriptor_type_defined(#[trigger] v[i as int].1[b].1),
            decreases bindings@.len() - j,
        {
            let t = bindings[j].descriptor_type;
            if !(REFLECT_SAMPLER <= t && t <= REFLECT_ACCELERATION_STRUCTURE) {
                assert(v[i as int].1[j as int].1 == t);
                return false;
            }
            j = j + 1;
        }
        i = i + 1;
    }
    true
}

} // verus!
