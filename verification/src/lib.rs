//! Verified core of the usami Vulkan toolkit: the NVIDIA shader container
//! format, shader-stage and descriptor-layout planning, memory-type
//! selection, raw image layout and the small numeric helpers.
use vstd::prelude::*;

pub mod descriptor;
pub mod device;
pub mod image;
pub mod layout;
pub mod memory;
pub mod nvshader;
pub mod reflection;
pub mod shader_plan;
pub mod stage;
pub mod utils;
pub mod vk;

verus! {

} // verus!
