//! What the descriptor-layout and shader planning reads of a SPIR-V
//! module's reflection, as plain values: entry points with their stage
//! bits, and descriptor sets with their bindings.
use vstd::prelude::*;

verus! {

/// Index of `ReflectDescriptorType::Undefined` among the variants of
/// spirv-reflect's descriptor type.
pub const REFLECT_UNDEFINED: u32 = 0;
/// Index of `ReflectDescriptorType::Sampler`.
pub const REFLECT_SAMPLER: u32 = 1;
/// Index of `ReflectDescriptorType::CombinedImageSampler`.
pub const REFLECT_COMBINED_IMAGE_SAMPLER: u32 = 2;
/// Index of `ReflectDescriptorType::SampledImage`.
pub const REFLECT_SAMPLED_IMAGE: u32 = 3;
/// Index of `ReflectDescriptorType::StorageImage`.
pub const REFLECT_STORAGE_IMAGE: u32 = 4;
/// Index of `ReflectDescriptorType::UniformTexelBuffer`.
pub const REFLECT_UNIFORM_TEXEL_BUFFER: u32 = 5;
/// Index of `ReflectDescriptorType::StorageTexelBuffer`.
pub const REFLECT_STORAGE_TEXEL_BUFFER: u32 = 6;
/// Index of `ReflectDescriptorType::UniformBuffer`.
pub const REFLECT_UNIFORM_BUFFER: u32 = 7;
/// Index of `ReflectDescriptorType::StorageBuffer`.
pub const REFLECT_STORAGE_BUFFER: u32 = 8;
/// Index of `ReflectDescriptorType::UniformBufferDynamic`.
pub const REFLECT_UNIFORM_BUFFER_DYNAMIC: u32 = 9;
/// Index of `ReflectDescriptorType::StorageBufferDynamic`.
pub const REFLECT_STORAGE_BUFFER_DYNAMIC: u32 = 10;
/// Index of `ReflectDescriptorType::InputAttachment`.
pub const REFLECT_INPUT_ATTACHMENT: u32 = 11;
/// Index of the acceleration-structure descriptor type.
pub const REFLECT_ACCELERATION_STRUCTURE: u32 = 12;

/// One descriptor binding a shader declares.
#[derive(Debug, Clone, Copy, PartialEq, Eq, Structural)]
pub struct ReflectedBinding {
    /// The binding number.
    pub binding: u32,
    /// The descriptor type, as the index of spirv-reflect's variant.
    pub descriptor_type: u32,
    /// The number of descriptors (the array size).
    pub count: u32,
}

impl View for ReflectedBinding {
    type V = (u32, u32, u32);

    open spec fn view(&self) -> (u32, u32, u32) {
        (self.binding, self.descriptor_type, self.count)
    }
}

/// The bindings a shader declares in one descriptor set.
#[derive(Debug)]
pub struct ReflectedDescriptorSet {
    /// The set number.
    pub set: u32,
    pub bindings: Vec<ReflectedBinding>,
}

impl View for ReflectedDescriptorSet {
    type V = (u32, Seq<(u32, u32, u32)>);

    open spec fn view(&self) -> (u32, Seq<(u32, u32, u32)>) {
        (self.set, self.bindings@.map_values(|b: ReflectedBinding| b@))
    }
}

/// An entry point of a SPIR-V module.
#[derive(Debug)]
pub struct ReflectedEntryPoint {
    pub name: String,
    /// The stage mask, as spirv-reflect's stage flag bits.
    pub shader_stage: u32,
}

impl View for ReflectedEntryPoint {
    type V = (Seq<char>, u32);

    open spec fn view(&self) -> (Seq<char>, u32) {
        (self.name@, self.shader_stage)
    }
}

/// The views of a sequence of descriptor sets.
pub open spec fn sets_view(s: Seq<ReflectedDescriptorSet>) -> Seq<(u32, Seq<(u32, u32, u32)>)> {
    s.map_values(|x: ReflectedDescriptorSet| x@)
}

/// The views of a sequence of entry points.
pub open spec fn entry_points_view(s: Seq<ReflectedEntryPoint>) -> Seq<(Seq<char>, u32)> {
    s.map_values(|x: ReflectedEntryPoint| x@)
}

} // verus!
