//! Shader stages: which stages may follow a stage in a pipeline, and the
//! file-name suffix that names the stages of a stage mask.
use vstd::prelude::*;
use vstd::string::*;
use crate::vk;

verus! {

/// A single shader stage, as a shader object is created for it.
#[derive(Debug, Clone, Copy, PartialEq, Eq, Structural)]
pub enum ShaderStage {
    Vertex,
    TessellationControl,
    TessellationEvaluation,
    Geometry,
    Fragment,
    Compute,
    Task,
    Mesh,
}

/// The stage flag bit of a stage.
pub open spec fn stage_flag(s: ShaderStage) -> u32 {
    match s {
        ShaderStage::Vertex => vk::STAGE_VERTEX,
        ShaderStage::TessellationControl => vk::STAGE_TESSELLATION_CONTROL,
        ShaderStage::TessellationEvaluation => vk::STAGE_TESSELLATION_EVALUATION,
        ShaderStage::Geometry => vk::STAGE_GEOMETRY,
        ShaderStage::Fragment => vk::STAGE_FRAGMENT,
        ShaderStage::Compute => vk::STAGE_COMPUTE,
        ShaderStage::Task => vk::STAGE_TASK_EXT,
        ShaderStage::Mesh => vk::STAGE_MESH_EXT,
    }
}

/// The stage whose flag bit is exactly `flags`, if any.
pub open spec fn stage_from_flags(flags: u32) -> Option<ShaderStage> {
    if flags == vk::STAGE_VERTEX {
        Some(ShaderStage::Vertex)
    } else if flags == vk::STAGE_TESSELLATION_CONTROL {
        Some(ShaderStage::TessellationControl)
    } else if flags == vk::STAGE_TESSELLATION_EVALUATION {
        Some(ShaderStage::TessellationEvaluation)
    } else if flags == vk::STAGE_GEOMETRY {
        Some(ShaderStage::Geometry)
    } else if flags == vk::STAGE_FRAGMENT {
        Some(ShaderStage::Fragment)
    } else if flags == vk::STAGE_COMPUTE {
        Some(ShaderStage::Compute)
    } else if flags == vk::STAGE_TASK_EXT {
        Some(ShaderStage::Task)
    } else if flags == vk::STAGE_MESH_EXT {
        Some(ShaderStage::Mesh)
    } else {
        None
    }
}

/// The stages that may follow `s`, as a stage mask.
pub open spec fn spec_next_stages(s: ShaderStage) -> u32 {
    match s {
        ShaderStage::Vertex => vk::STAGE_TESSELLATION_CONTROL | vk::STAGE_GEOMETRY | vk::STAGE_FRAGMENT,
        ShaderStage::TessellationControl => vk::STAGE_TESSELLATION_EVALUATION,
        ShaderStage::TessellationEvaluation => vk::STAGE_GEOMETRY | vk::STAGE_FRAGMENT,
        ShaderStage::Geometry => vk::STAGE_FRAGMENT,
        ShaderStage::Fragment => 0,
        ShaderStage::Compute => 0,
        ShaderStage::Task => vk::STAGE_MESH_EXT,
        ShaderStage::Mesh => vk::STAGE_FRAGMENT,
    }
}

impl ShaderStage {
    /// The stage whose flag bit is exactly `flags`; `None` for any other mask.
    pub fn from_flags(flags: u32) -> (r: Option<ShaderStage>)
        ensures
            r == stage_from_flags(flags),
            r matches Some(s) ==> stage_flag(s) == flags,
            r is None ==> forall|s: ShaderStage| stage_flag(s) != flags,
    {
        if flags == vk::STAGE_VERTEX {
            Some(ShaderStage::Vertex)
        } else if flags == vk::STAGE_TESSELLATION_CONTROL {
            Some(ShaderStage::TessellationControl)
        } else if flags == vk::STAGE_TESSELLATION_EVALUATION {
            Some(ShaderStage::TessellationEvaluation)
        } else if flags == vk::STAGE_GEOMETRY {
            Some(ShaderStage::Geometry)
        } else if flags == vk::STAGE_FRAGMENT {
            Some(ShaderStage::Fragment)
        } else if flags == vk::STAGE_COMPUTE {
            Some(ShaderStage::Compute)
        } else if flags == vk::STAGE_TASK_EXT {
            Some(ShaderStage::Task)
        } else if flags == vk::STAGE_MESH_EXT {
            Some(ShaderStage::Mesh)
        } else {
            None
        }
    }

    /// The stage flag bit of this stage.
    pub fn flags(&self) -> (r: u32)
        ensures
            r == stage_flag(*self),
    {
        match self {
            ShaderStage::Vertex => vk::STAGE_VERTEX,
            ShaderStage::TessellationControl => vk::STAGE_TESSELLATION_CONTROL,
            ShaderStage::TessellationEvaluation => vk::STAGE_TESSELLATION_EVALUATION,
            ShaderStage::Geometry => vk::STAGE_GEOMETRY,
            ShaderStage::Fragment => vk::STAGE_FRAGMENT,
            ShaderStage::Compute => vk::STAGE_COMPUTE,
            ShaderStage::Task => vk::STAGE_TASK_EXT,
            ShaderStage::Mesh => vk::STAGE_MESH_EXT,
        }
    }
}

/// A stage's flag bit names that stage and no other.
pub proof fn lemma_stage_flag_round_trip(s: ShaderStage)
    ensures
        stage_from_flags(stage_flag(s)) == Some(s),
{
}

/// No stage may follow itself: the stages that may follow a stage never
/// include it.
pub proof fn lemma_next_stages_exclude_self(s: ShaderStage)
    ensures
        spec_next_stages(s) & stage_flag(s) == 0,
{
    assert(0x1a_u32 & 0x1 == 0) by (bit_vector);
    assert(0x18_u32 & 0x4 == 0) by (bit_vector);
    assert(0x4_u32 & 0x2 == 0) by (bit_vector);
    assert(0x10_u32 & 0x8 == 0) by (bit_vector);
    assert(0x0_u32 & 0x10 == 0) by (bit_vector);
    assert(0x0_u32 & 0x20 == 0) by (bit_vector);
    assert(0x80_u32 & 0x40 == 0) by (bit_vector);
    assert(0x10_u32 & 0x80 == 0) by (bit_vector);
    assert(vk::STAGE_TESSELLATION_CONTROL | vk::STAGE_GEOMETRY | vk::STAGE_FRAGMENT == 0x1a) by (bit_vector);
    assert(vk::STAGE_GEOMETRY | vk::STAGE_FRAGMENT == 0x18) by (bit_vector);
}

/// The stages that may follow `stage` in a pipeline: vertex is followed by
/// tessellation control, geometry or fragment; tessellation control by
/// tessellation evaluation; tessellation evaluation by geometry or
/// fragment; geometry and mesh by fragment; task by mesh; fragment and
/// compute by nothing.
pub fn next_stages(stage: ShaderStage) -> (r: u32)
    ensures
        r == spec_next_stages(stage),
{
    match stage {
        ShaderStage::Vertex => vk::STAGE_TESSELLATION_CONTROL | vk::STAGE_GEOMETRY | vk::STAGE_FRAGMENT,
        ShaderStage::TessellationControl => vk::STAGE_TESSELLATION_EVALUATION,
        ShaderStage::TessellationEvaluation => vk::STAGE_GEOMETRY | vk::STAGE_FRAGMENT,
        ShaderStage::Geometry => vk::STAGE_FRAGMENT,
        ShaderStage::Fragment => 0,
        ShaderStage::Compute => 0,
        ShaderStage::Task => vk::STAGE_MESH_EXT,
        ShaderStage::Mesh => vk::STAGE_FRAGMENT,
    }
}

/// Every bit of `flag` is set in `mask`.
pub open spec fn has_stage(mask: u32, flag: u32) -> bool {
    mask & flag == flag
}

/// The part `name` if `mask` holds `flag`, else nothing.
pub open spec fn part_if(mask: u32, flag: u32, name: Seq<char>) -> Seq<Seq<char>> {
    if has_stage(mask, flag) {
        seq![name]
    } else {
        Seq::empty()
    }
}

/// Names of the graphics and compute stages of `mask`, in pipeline order.
pub open spec fn stage_names(mask: u32) -> Seq<Seq<char>> {
    part_if(mask, vk::STAGE_VERTEX, "vert"@) + part_if(mask, vk::STAGE_TESSELLATION_CONTROL, "tesc"@)
        + part_if(mask, vk::STAGE_TESSELLATION_EVALUATION, "tese"@) + part_if(mask, vk::STAGE_GEOMETRY, "geom"@)
        + part_if(mask, vk::STAGE_FRAGMENT, "frag"@) + part_if(mask, vk::STAGE_COMPUTE, "comp"@)
}

/// `parts` joined with `.` between consecutive parts.
pub open spec fn join_dots(parts: Seq<Seq<char>>) -> Seq<char>
    decreases parts.len(),
{
    if parts.len() == 0 {
        Seq::empty()
    } else if parts.len() == 1 {
        parts[0]
    } else {
        join_dots(parts.drop_last()) + "."@ + parts.last()
    }
}

/// Appends `name` to the dot-joined `out` when `mask` holds `flag`.
fn push_stage_name(out: &mut String, any_before: bool, mask: u32, flag: u32, name: &str, Ghost(parts): Ghost<Seq<Seq<char>>>) -> (any_after: bool)
    requires
        old(out)@ == join_dots(parts),
        any_before == (parts.len() > 0),
    ensures
        final(out)@ == join_dots(parts + part_if(mask, flag, name@)),
        any_after == ((parts + part_if(mask, flag, name@)).len() > 0),
{
    if mask & flag == flag {
        assert((parts + seq![name@]).drop_last() =~= parts);
        if !any_before {
            assert(parts + seq![name@] =~= seq![name@]);
        } else {
            out.append(".");
        }
        out.append(name);
        true
    } else {
        assert(parts + Seq::<Seq<char>>::empty() =~= parts);
        any_before
    }
}

/// The suffix naming the stages of `mask`: the names `vert`, `tesc`, `tese`,
/// `geom`, `frag` and `comp` of the stages it holds, in that order, joined
/// with `.`; empty when it holds none of them.
pub fn shader_stage_suffix(mask: u32) -> (r: String)
    ensures
        r@ == join_dots(stage_names(mask)),
{
    let mut out = String::new();
    let ghost p0: Seq<Seq<char>> = Seq::empty();
    let ghost p1 = p0 + part_if(mask, vk::STAGE_VERTEX, "vert"@);
    let ghost p2 = p1 + part_if(mask, vk::STAGE_TESSELLATION_CONTROL, "tesc"@);
    let ghost p3 = p2 + part_if(mask, vk::STAGE_TESSELLATION_EVALUATION, "tese"@);
    let ghost p4 = p3 + part_if(mask, vk::STAGE_GEOMETRY, "geom"@);
    let ghost p5 = p4 + part_if(mask, vk::STAGE_FRAGMENT, "frag"@);
    let ghost p6 = p5 + part_if(mask, vk::STAGE_COMPUTE, "comp"@);
    let any = push_stage_name(&mut out, false, mask, vk::STAGE_VERTEX, "vert", Ghost(p0));
    let any = push_stage_name(&mut out, any, mask, vk::STAGE_TESSELLATION_CONTROL, "tesc", Ghost(p1));
    let any = push_stage_name(&mut out, any, mask, vk::STAGE_TESSELLATION_EVALUATION, "tese", Ghost(p2));
    let any = push_stage_name(&mut out, any, mask, vk::STAGE_GEOMETRY, "geom", Ghost(p3));
    let any = push_stage_name(&mut out, any, mask, vk::STAGE_FRAGMENT, "frag", Ghost(p4));
    let _ = push_stage_name(&mut out, any, mask, vk::STAGE_COMPUTE, "comp", Ghost(p5));
    assert(p6 =~= stage_names(mask));
    out
}

/// A compiled shader: its entry point, the suffix naming its stage, and the
/// binary the driver produced for it.
pub struct Shader {
    pub name: String,
    pub stage: String,
    pub data: Vec<u8>,
}

} // verus!
