//! Choosing a physical device and queue family, naming devices, and the
//! device features to enable for the extensions asked for.
use vstd::prelude::*;
use vstd::string::*;
use crate::vk;

verus! {

/// The queue family has every bit of `VK_QUEUE_GRAPHICS_BIT`.
pub open spec fn supports_graphics(queue_flags: u32) -> bool {
    queue_flags & vk::QUEUE_GRAPHICS == vk::QUEUE_GRAPHICS
}

/// The index of the first graphics-capable queue family, if any.
pub open spec fn first_graphics_family(families: Seq<u32>) -> Option<int>
    decreases families.len(),
{
    if families.len() == 0 {
        None
    } else {
        match first_graphics_family(families.drop_last()) {
            Some(i) => Some(i),
            None => if supports_graphics(families.last()) {
                Some(families.len() - 1)
            } else {
                None
            },
        }
    }
}

/// The device passes the vendor and device id filters (an absent filter
/// passes every device; ids are compared as `u32`).
pub open spec fn device_matches(vendor_id: u32, device_id: u32, wanted_vendor: Option<usize>, wanted_device: Option<usize>) -> bool {
    &&& (wanted_vendor matches Some(v) ==> vendor_id == v as u32)
    &&& (wanted_device matches Some(d) ==> device_id == d as u32)
}

/// Picks the queue family to use on a physical device: `None` when the
/// device fails the vendor or device id filter, else the first queue family
/// that supports graphics, if any.
pub fn select_graphics_queue_family(
    vendor_id: u32,
    device_id: u32,
    queue_family_flags: &Vec<u32>,
    wanted_vendor: Option<usize>,
    wanted_device: Option<usize>,
) -> (r: Option<u32>)
    ensures
        !device_matches(vendor_id, device_id, wanted_vendor, wanted_device) ==> r is None,
        device_matches(vendor_id, device_id, wanted_vendor, wanted_device) ==> match first_graphics_family(queue_family_flags@) {
            Some(i) => r == Some(i as u32),
            None => r is None,
        },
        wanted_vendor matches Some(v) && vendor_id != v as u32 ==> r is None,
        wanted_device matches Some(d) && device_id != d as u32 ==> r is None,
        r matches Some(i) ==> {
            &&& (wanted_vendor matches Some(wv) ==> vendor_id == wv as u32)
            &&& (wanted_device matches Some(wd) ==> device_id == wd as u32)
            &&& exists|k: int| {
                &&& 0 <= k < queue_family_flags@.len()
                &&& #[verifier::truncate] (k as u32) == i
                &&& #[trigger] queue_family_flags@[k] & 1 == 1
                &&& forall|j: int| 0 <= j < k ==> #[trigger] queue_family_flags@[j] & 1 != 1
            }
        },
        r is None && (wanted_vendor matches Some(v) ==> vendor_id == #[verifier::truncate] (v as u32)) && (
        wanted_device matches Some(d) ==> device_id == #[verifier::truncate] (d as u32)) ==> forall|j: int| 0 <= j < queue_family_flags@.len() ==> #[trigger] queue_family_flags@[j] & 1 != 1,
{
    proof {
        lemma_first_graphics_family(queue_family_flags@);
    }
    if let Some(v) = wanted_vendor {
        if vendor_id != #[verifier::truncate] (v as u32) {
            return None;
        }
    }
    if let Some(d) = wanted_device {
        if device_id != #[verifier::truncate] (d as u32) {
            return None;
        }
    }
    let ghost fams = queue_family_flags@;
    let mut i: usize = 0;
    while i < queue_family_flags.len()
        invariant
            fams == queue_family_flags@,
            device_matches(vendor_id, device_id, wanted_vendor, wanted_device),
            i <= fams.len(),
            first_graphics_family(fams.take(i as int)) is None,
        decreases fams.len() - i,
    {
        proof {
            assert(fams.take(i + 1).drop_last() =~= fams.take(i as int));
        }
        if queue_family_flags[i] & vk::QUEUE_GRAPHICS == vk::QUEUE_GRAPHICS {
            proof {
                lemma_first_graphics_family_prefix(fams, i + 1);
                lemma_first_graphics_family(fams.take(i as int));
                assert(forall|j: int| 0 <= j < i ==> fams.take(i as int)[j] == fams[j]);
                assert(fams[i as int] & 1 == 1);
                assert(#[verifier::truncate] ((i as int) as u32) == #[verifier::truncate] (i as u32));
            }
            return Some(#[verifier::truncate] (i as u32));
        }
        i = i + 1;
    }
    proof {
        assert(fams.take(fams.len() as int) =~= fams);
    }
    None
}

/// The first graphics family is the lowest index whose flags hold the
/// graphics bit (bit 0); there is none exactly when no family holds it.
pub proof fn lemma_first_graphics_family(fams: Seq<u32>)
    ensures
        match first_graphics_family(fams) {
            Some(i) => 0 <= i < fams.len() && fams[i] & 1 == 1 && forall|j: int| 0 <= j < i ==> #[trigger] fams[j] & 1 != 1,
            None => forall|j: int| 0 <= j < fams.len() ==> #[trigger] fams[j] & 1 != 1,
        },
    decreases fams.len(),
{
    if fams.len() > 0 {
        let init = fams.drop_last();
        lemma_first_graphics_family(init);
        assert(forall|j: int| 0 <= j < init.len() ==> init[j] == fams[j]);
    }
}

/// A prefix that already holds a graphics family decides the first one.
proof fn lemma_first_graphics_family_prefix(fams: Seq<u32>, j: int)
    requires
        0 <= j <= fams.len(),
        first_graphics_family(fams.take(j)) is Some,
    ensures
        first_graphics_family(fams) == first_graphics_family(fams.take(j)),
    decreases fams.len() - j,
{
    if j < fams.len() {
        assert(fams.take(j + 1).drop_last() =~= fams.take(j));
        lemma_first_graphics_family_prefix(fams, j + 1);
    } else {
        assert(fams.take(j) =~= fams);
    }
}

/// The first NUL of a fixed-size C name buffer, or its whole length.
pub open spec fn c_name_length(name: Seq<u8>) -> int
    decreases name.len(),
{
    if name.len() == 0 {
        0
    } else if c_name_length(name.drop_last()) < name.len() - 1 {
        c_name_length(name.drop_last())
    } else if name.last() == 0 {
        name.len() - 1
    } else {
        name.len() as int
    }
}

/// Length of the name in a fixed-size, NUL-terminated device name buffer:
/// the index of its first NUL, or the buffer's length when it has none.
pub fn device_name_length(name: &[u8]) -> (r: usize)
    ensures
        r == c_name_length(name@),
        r <= name@.len(),
        forall|i: int| 0 <= i < r ==> name@[i] != 0,
        r < name@.len() ==> name@[r as int] == 0,
{
    let ghost s = name@;
    let mut i: usize = 0;
    while i < name.len()
        invariant
            s == name@,
            i <= s.len(),
            c_name_length(s.take(i as int)) == i,
            forall|k: int| 0 <= k < i ==> s[k] != 0,
        decreases s.len() - i,
    {
        proof {
            assert(s.take(i + 1).drop_last() =~= s.take(i as int));
        }
        if name[i] == 0 {
            proof {
                lemma_c_name_length_prefix(s, i + 1);
            }
            return i;
        }
        i = i + 1;
    }
    proof {
        assert(s.take(s.len() as int) =~= s);
    }
    i
}

/// Once a prefix holds a NUL, the name length is decided by it.
proof fn lemma_c_name_length_prefix(s: Seq<u8>, j: int)
    requires
        0 <= j <= s.len(),
        c_name_length(s.take(j)) < j,
    ensures
        c_name_length(s) == c_name_length(s.take(j)),
    decreases s.len() - j,
{
    if j < s.len() {
        assert(s.take(j + 1).drop_last() =~= s.take(j));
        lemma_c_name_length_prefix(s, j + 1);
    } else {
        assert(s.take(j) =~= s);
    }
}

/// Name of the `VK_EXT_shader_object` extension.
pub const EXT_SHADER_OBJECT: &'static str = "VK_EXT_shader_object";
/// Name of the `VK_EXT_mesh_shader` extension.
pub const EXT_MESH_SHADER: &'static str = "VK_EXT_mesh_shader";
/// Name of the `VK_EXT_conditional_rendering` extension.
pub const EXT_CONDITIONAL_RENDERING: &'static str = "VK_EXT_conditional_rendering";
/// Name of the `VK_EXT_transform_feedback` extension.
pub const EXT_TRANSFORM_FEEDBACK: &'static str = "VK_EXT_transform_feedback";
/// Name of the `VK_KHR_cooperative_matrix` extension.
pub const KHR_COOPERATIVE_MATRIX: &'static str = "VK_KHR_cooperative_matrix";
/// Name of the `VK_NV_cooperative_matrix` extension.
pub const NV_COOPERATIVE_MATRIX: &'static str = "VK_NV_cooperative_matrix";

/// The feature structures to chain into device creation.
#[derive(Debug, Clone, Copy, PartialEq, Eq, Structural)]
pub struct DeviceFeaturePlan {
    pub shader_object: bool,
    pub mesh_shader: bool,
    pub conditional_rendering: bool,
    pub transform_feedback: bool,
    pub cooperative_matrix: bool,
    pub cooperative_matrix_nv: bool,
    /// Query and enable the Vulkan 1.1 and 1.2 features.
    pub vulkan_11_12: bool,
    /// Query and enable the Vulkan 1.3 features.
    pub vulkan_13: bool,
    /// Enable geometry shaders.
    pub geometry_shader: bool,
    /// Enable point size in tessellation and geometry shaders.
    pub shader_tessellation_and_geometry_point_size: bool,
}

/// `name` is among `extensions`.
pub open spec fn names_extension(extensions: Seq<String>, name: Seq<char>) -> bool {
    exists|i: int| 0 <= i < extensions.len() && (#[trigger] extensions[i])@ == name
}

/// The features to enable for the extensions `extensions` at API version
/// `vk_version`, given the device's geometry-shader and point-size support.
pub open spec fn device_feature_plan(extensions: Seq<String>, vk_version: u32, geometry_shader: u32, point_size: u32) -> DeviceFeaturePlan {
    DeviceFeaturePlan {
        shader_object: names_extension(extensions, EXT_SHADER_OBJECT@),
        mesh_shader: names_extension(extensions, EXT_MESH_SHADER@),
        conditional_rendering: names_extension(extensions, EXT_CONDITIONAL_RENDERING@),
        transform_feedback: names_extension(extensions, EXT_TRANSFORM_FEEDBACK@),
        cooperative_matrix: names_extension(extensions, KHR_COOPERATIVE_MATRIX@),
        cooperative_matrix_nv: names_extension(extensions, NV_COOPERATIVE_MATRIX@),
        vulkan_11_12: vk_version >= vk::API_VERSION_1_2,
        vulkan_13: vk_version >= vk::API_VERSION_1_2 && vk_version >= vk::API_VERSION_1_3,
        geometry_shader: geometry_shader != 0,
        shader_tessellation_and_geometry_point_size: point_size != 0,
    }
}

/// Each feature structure is chained exactly when its own extension is
/// asked for: shader object for `VK_EXT_shader_object`, mesh shader for
/// `VK_EXT_mesh_shader`, conditional rendering for
/// `VK_EXT_conditional_rendering`, transform feedback for
/// `VK_EXT_transform_feedback`, cooperative matrix for
/// `VK_KHR_cooperative_matrix` and `VK_NV_cooperative_matrix`; the Vulkan
/// 1.1/1.2 features from API version 1.2 (0x402000) on and the 1.3 features
/// from 1.3 (0x403000) on.
pub proof fn lemma_device_feature_plan(extensions: Seq<String>, vk_version: u32, geometry_shader: u32, point_size: u32)
    ensures
        ({
            let p = device_feature_plan(extensions, vk_version, geometry_shader, point_size);
            &&& p.shader_object <==> names_extension(extensions, "VK_EXT_shader_object"@)
            &&& p.mesh_shader <==> names_extension(extensions, "VK_EXT_mesh_shader"@)
            &&& p.conditional_rendering <==> names_extension(extensions, "VK_EXT_conditional_rendering"@)
            &&& p.transform_feedback <==> names_extension(extensions, "VK_EXT_transform_feedback"@)
            &&& p.cooperative_matrix <==> names_extension(extensions, "VK_KHR_cooperative_matrix"@)
            &&& p.cooperative_matrix_nv <==> names_extension(extensions, "VK_NV_cooperative_matrix"@)
            &&& p.vulkan_11_12 <==> vk_version >= 0x402000
            &&& p.vulkan_13 <==> vk_version >= 0x403000
            &&& p.geometry_shader <==> geometry_shader != 0
            &&& p.shader_tessellation_and_geometry_point_size <==> point_size != 0
        }),
{
}

/// Tells whether `name` is among `extensions`.
fn has_extension(extensions: &Vec<String>, name: &str) -> (r: bool)
    ensures
        r == names_extension(extensions@, name@),
{
    let wanted = String::from_str(name);
    let mut i: usize = 0;
    while i < extensions.len()
        invariant
            wanted@ == name@,
            i <= extensions@.len(),
            forall|k: int| 0 <= k < i ==> (#[trigger] extensions@[k])@ != name@,
        decreases extensions@.len() - i,
    {
        if extensions[i] == wanted {
            return true;
        }
        i = i + 1;
    }
    false
}

/// Decides which feature structures to chain when creating a device with
/// the extensions `extensions` at API version `vk_version`: one per
/// extension that has features, the Vulkan 1.1/1.2 features from 1.2 on,
/// the 1.3 features from 1.3 on, and geometry shaders and their point size
/// where the device supports them.
pub fn plan_device_features(extensions: &Vec<String>, vk_version: u32, geometry_shader: u32, point_size: u32) -> (r: DeviceFeaturePlan)
    requires
        forall|i: int| 0 <= i < extensions@.len() ==> !(#[trigger] extensions@[i])@.contains('\0'),
    ensures
        r == device_feature_plan(extensions@, vk_version, geometry_shader, point_size),
        r.shader_object <==> names_extension(extensions@, "VK_EXT_shader_object"@),
        r.mesh_shader <==> names_extension(extensions@, "VK_EXT_mesh_shader"@),
        r.conditional_rendering <==> names_extension(extensions@, "VK_EXT_conditional_rendering"@),
        r.transform_feedback <==> names_extension(extensions@, "VK_EXT_transform_feedback"@),
        r.cooperative_matrix <==> names_extension(extensions@, "VK_KHR_cooperative_matrix"@),
        r.cooperative_matrix_nv <==> names_extension(extensions@, "VK_NV_cooperative_matrix"@),
        r.vulkan_11_12 <==> vk_version >= 0x402000,
        r.vulkan_13 <==> vk_version >= 0x403000,
        r.geometry_shader <==> geometry_shader != 0,
        r.shader_tessellation_and_geometry_point_size <==> point_size != 0,
{
    proof {
        lemma_device_feature_plan(extensions@, vk_version, geometry_shader, point_size);
    }
    DeviceFeaturePlan {
        shader_object: has_extension(extensions, EXT_SHADER_OBJECT),
        mesh_shader: has_extension(extensions, EXT_MESH_SHADER),
        conditional_rendering: has_extension(extensions, EXT_CONDITIONAL_RENDERING),
        transform_feedback: has_extension(extensions, EXT_TRANSFORM_FEEDBACK),
        cooperative_matrix: has_extension(extensions, KHR_COOPERATIVE_MATRIX),
        cooperative_matrix_nv: has_extension(extensions, NV_COOPERATIVE_MATRIX),
        vulkan_11_12: vk_version >= vk::API_VERSION_1_2,
        vulkan_13: vk_version >= vk::API_VERSION_1_2 && vk_version >= vk::API_VERSION_1_3,
        geometry_shader: geometry_shader != 0,
        shader_tessellation_and_geometry_point_size: point_size != 0,
    }
}

} // verus!
