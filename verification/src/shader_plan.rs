//! What creating the driver shader object of one SPIR-V entry point
//! entails, up to the driver calls: its stage, the stages that may follow
//! it, its descriptor-set layouts and the suffix naming its stage.
use vstd::prelude::*;
use crate::layout::{
    all_descriptor_types_defined, create_descriptor_set_layouts, descriptor_set_layout_plans,
    plans_view, LayoutBinding, SetLayoutPlan, SetView,
};
use crate::reflection::{entry_points_view, sets_view, ReflectedDescriptorSet, ReflectedEntryPoint};
use crate::stage::{
    join_dots, next_stages, shader_stage_suffix, spec_next_stages, stage_from_flags, stage_names,
    ShaderStage,
};

verus! {

/// What is needed to create the shader object of one entry point.
#[derive(Debug)]
pub struct ShaderPlan {
    /// The entry point's name.
    pub name: String,
    /// The entry point's stage mask.
    pub stage: u32,
    /// The stages that may follow it.
    pub next_stages: u32,
    /// The suffix naming its stage.
    pub stage_suffix: String,
    /// The descriptor-set layouts it uses, update-after-bind where allowed.
    pub set_layouts: Vec<SetLayoutPlan>,
}

/// A plan's name, stage, next stages, suffix and layouts.
pub type ShaderPlanView = (Seq<char>, u32, u32, Seq<char>, Seq<(Seq<LayoutBinding>, Seq<u32>, u32)>);

impl View for ShaderPlan {
    type V = ShaderPlanView;

    open spec fn view(&self) -> ShaderPlanView {
        (self.name@, self.stage, self.next_stages, self.stage_suffix@, plans_view(self.set_layouts@))
    }
}

/// A shader object can be planned for an entry point (name, stage bits)
/// whose descriptor sets are `sets`: every binding has a defined descriptor
/// type and the stage mask is a single supported stage.
pub open spec fn shader_plannable(ep: (Seq<char>, u32), sets: Seq<SetView>) -> bool {
    all_descriptor_types_defined(sets) && stage_from_flags(ep.1) is Some
}

/// The plan for an entry point (name, stage bits) whose descriptor sets
/// are `sets`.
pub open spec fn shader_plan(ep: (Seq<char>, u32), sets: Seq<SetView>) -> ShaderPlanView {
    (
        ep.0,
        ep.1,
        spec_next_stages(stage_from_flags(ep.1)->0),
        join_dots(stage_names(ep.1)),
        descriptor_set_layout_plans(sets, ep.1, true),
    )
}

/// Plans the shader object of entry point `entry_point`, whose descriptor
/// sets are `sets`: its stage, the stages that may follow it, the suffix
/// naming its stage and its descriptor-set layouts (update-after-bind
/// where the descriptor type allows).
pub fn plan_shader(entry_point: &ReflectedEntryPoint, sets: &Vec<ReflectedDescriptorSet>) -> (r: ShaderPlan)
    requires
        shader_plannable(entry_point@, sets_view(sets@)),
    ensures
        r@ == shader_plan(entry_point@, sets_view(sets@)),
{
    let stage = entry_point.shader_stage;
    let set_layouts = create_descriptor_set_layouts(sets, stage, true);
    let next = next_stages(ShaderStage::from_flags(stage).unwrap());
    ShaderPlan {
        name: entry_point.name.clone(),
        stage,
        next_stages: next,
        stage_suffix: shader_stage_suffix(stage),
        set_layouts,
    }
}

/// The views of a sequence of plans.
pub open spec fn shader_plan_views(s: Seq<ShaderPlan>) -> Seq<ShaderPlanView> {
    s.map_values(|p: ShaderPlan| p@)
}

/// The views of the descriptor sets of each entry point.
pub open spec fn entry_sets_view(s: Seq<Vec<ReflectedDescriptorSet>>) -> Seq<Seq<SetView>> {
    s.map_values(|v: Vec<ReflectedDescriptorSet>| sets_view(v@))
}

/// Every one of the first `n` entry points `eps` named `entry_point` can be
/// planned with its descriptor sets from `sets`.
pub open spec fn entry_points_plannable(
    eps: Seq<(Seq<char>, u32)>,
    sets: Seq<Seq<SetView>>,
    entry_point: Seq<char>,
    n: int,
) -> bool {
    forall|k: int| #![trigger eps[k]] 0 <= k < n && eps[k].0 == entry_point ==> shader_plannable(eps[k], sets[k])
}

/// The plans for those of the first `n` entry points `eps` that are named
/// `entry_point`, in order, entry point `k` with the descriptor sets
/// `sets[k]`.
pub open spec fn entry_point_plans(
    eps: Seq<(Seq<char>, u32)>,
    sets: Seq<Seq<SetView>>,
    entry_point: Seq<char>,
    n: int,
) -> Seq<ShaderPlanView>
    decreases n,
{
    if n <= 0 {
        Seq::empty()
    } else if eps[n - 1].0 == entry_point {
        entry_point_plans(eps, sets, entry_point, n - 1).push(shader_plan(eps[n - 1], sets[n - 1]))
    } else {
        entry_point_plans(eps, sets, entry_point, n - 1)
    }
}

/// Plans the shader object of every entry point of a module named
/// `entry_point`, in module order. `entry_points` are the module's entry
/// points and `sets[k]` the descriptor sets of entry point `k` (those of
/// entry points with another name are not read).
pub fn plan_shaders_from(
    entry_points: &Vec<ReflectedEntryPoint>,
    sets: &Vec<Vec<ReflectedDescriptorSet>>,
    entry_point: &str,
) -> (r: Vec<ShaderPlan>)
    requires
        sets@.len() == entry_points@.len(),
        entry_points_plannable(
            entry_points_view(entry_points@),
            entry_sets_view(sets@),
            entry_point@,
            entry_points@.len() as int,
        ),
    ensures
        shader_plan_views(r@) == entry_point_plans(
            entry_points_view(entry_points@),
            entry_sets_view(sets@),
            entry_point@,
            entry_points@.len() as int,
        ),
{
    let ghost eps = entry_points_view(entry_points@);
    let ghost sv = entry_sets_view(sets@);
    let n = entry_points.len();
    let target = entry_point.to_owned();
    let mut plans: Vec<ShaderPlan> = Vec::new();
    let mut i: usize = 0;
    assert(shader_plan_views(plans@) =~= Seq::<ShaderPlanView>::empty());
    while i < n
        invariant
            n == entry_points@.len(),
            n == sets@.len(),
            i <= n,
            target@ == entry_point@,
            eps == entry_points_view(entry_points@),
            sv == entry_sets_view(sets@),
            entry_points_plannable(eps, sv, entry_point@, n as int),
            shader_plan_views(plans@) == entry_point_plans(eps, sv, entry_point@, i as int),
        decreases n - i,
    {
        let e = &entry_points[i];
        assert(eps[i as int] == e@);
        assert(sv[i as int] == sets_view(sets@[i as int]@));
        if e.name == target {
            assert(shader_plannable(eps[i as int], sv[i as int]));
            let ghost before = plans@;
            let p = plan_shader(e, &sets[i]);
            let ghost pv = p@;
            plans.push(p);
            assert(shader_plan_views(plans@) =~= shader_plan_views(before).push(pv));
        }
        i = i + 1;
    }
    plans
}

} // verus!
