//! The raw values of the Vulkan enumerants and flags the library reasons
//! about, as the Vulkan registry assigns them.
use vstd::prelude::*;

verus! {

/// `VK_FORMAT_R8_UNORM`.
pub const FORMAT_R8_UNORM: i32 = 9;
/// `VK_FORMAT_R8G8_UNORM`.
pub const FORMAT_R8G8_UNORM: i32 = 16;
/// `VK_FORMAT_R8G8B8_UNORM`.
pub const FORMAT_R8G8B8_UNORM: i32 = 23;
/// `VK_FORMAT_R8G8B8A8_UNORM`.
pub const FORMAT_R8G8B8A8_UNORM: i32 = 37;

/// `VK_SHADER_STAGE_VERTEX_BIT`.
pub const STAGE_VERTEX: u32 = 0x1;
/// `VK_SHADER_STAGE_TESSELLATION_CONTROL_BIT`.
pub const STAGE_TESSELLATION_CONTROL: u32 = 0x2;
/// `VK_SHADER_STAGE_TESSELLATION_EVALUATION_BIT`.
pub const STAGE_TESSELLATION_EVALUATION: u32 = 0x4;
/// `VK_SHADER_STAGE_GEOMETRY_BIT`.
pub const STAGE_GEOMETRY: u32 = 0x8;
/// `VK_SHADER_STAGE_FRAGMENT_BIT`.
pub const STAGE_FRAGMENT: u32 = 0x10;
/// `VK_SHADER_STAGE_COMPUTE_BIT`.
pub const STAGE_COMPUTE: u32 = 0x20;
/// `VK_SHADER_STAGE_TASK_BIT_EXT`.
pub const STAGE_TASK_EXT: u32 = 0x40;
/// `VK_SHADER_STAGE_MESH_BIT_EXT`.
pub const STAGE_MESH_EXT: u32 = 0x80;
/// `VK_SHADER_STAGE_ALL`.
pub const STAGE_ALL: u32 = 0x7fff_ffff;

/// `VK_DESCRIPTOR_TYPE_SAMPLER`.
pub const DESCRIPTOR_TYPE_SAMPLER: i32 = 0;
/// `VK_DESCRIPTOR_TYPE_COMBINED_IMAGE_SAMPLER`.
pub const DESCRIPTOR_TYPE_COMBINED_IMAGE_SAMPLER: i32 = 1;
/// `VK_DESCRIPTOR_TYPE_SAMPLED_IMAGE`.
pub const DESCRIPTOR_TYPE_SAMPLED_IMAGE: i32 = 2;
/// `VK_DESCRIPTOR_TYPE_STORAGE_IMAGE`.
pub const DESCRIPTOR_TYPE_STORAGE_IMAGE: i32 = 3;
/// `VK_DESCRIPTOR_TYPE_UNIFORM_TEXEL_BUFFER`.
pub const DESCRIPTOR_TYPE_UNIFORM_TEXEL_BUFFER: i32 = 4;
/// `VK_DESCRIPTOR_TYPE_STORAGE_TEXEL_BUFFER`.
pub const DESCRIPTOR_TYPE_STORAGE_TEXEL_BUFFER: i32 = 5;
/// `VK_DESCRIPTOR_TYPE_UNIFORM_BUFFER`.
pub const DESCRIPTOR_TYPE_UNIFORM_BUFFER: i32 = 6;
/// `VK_DESCRIPTOR_TYPE_STORAGE_BUFFER`.
pub const DESCRIPTOR_TYPE_STORAGE_BUFFER: i32 = 7;
/// `VK_DESCRIPTOR_TYPE_UNIFORM_BUFFER_DYNAMIC`.
pub const DESCRIPTOR_TYPE_UNIFORM_BUFFER_DYNAMIC: i32 = 8;
/// `VK_DESCRIPTOR_TYPE_STORAGE_BUFFER_DYNAMIC`.
pub const DESCRIPTOR_TYPE_STORAGE_BUFFER_DYNAMIC: i32 = 9;
/// `VK_DESCRIPTOR_TYPE_INPUT_ATTACHMENT`.
pub const DESCRIPTOR_TYPE_INPUT_ATTACHMENT: i32 = 10;
/// `VK_DESCRIPTOR_TYPE_ACCELERATION_STRUCTURE_KHR`.
pub const DESCRIPTOR_TYPE_ACCELERATION_STRUCTURE_KHR: i32 = 1000150000;

/// `VK_DESCRIPTOR_BINDING_UPDATE_AFTER_BIND_BIT`.
pub const DESCRIPTOR_BINDING_UPDATE_AFTER_BIND: u32 = 0x1;
/// `VK_DESCRIPTOR_SET_LAYOUT_CREATE_UPDATE_AFTER_BIND_POOL_BIT`.
pub const DESCRIPTOR_SET_LAYOUT_CREATE_UPDATE_AFTER_BIND_POOL: u32 = 0x2;

/// `VK_QUEUE_GRAPHICS_BIT`.
pub const QUEUE_GRAPHICS: u32 = 0x1;

/// `VK_IMAGE_ASPECT_COLOR_BIT`.
pub const IMAGE_ASPECT_COLOR: u32 = 0x1;

/// `VK_API_VERSION_1_2`.
pub const API_VERSION_1_2: u32 = 4202496;
/// `VK_API_VERSION_1_3`.
pub const API_VERSION_1_3: u32 = 4206592;

} // verus!
