use spirv_reflect::types::ReflectDescriptorType as R;
use usami::reflection::{
    REFLECT_ACCELERATION_STRUCTURE, REFLECT_COMBINED_IMAGE_SAMPLER, REFLECT_INPUT_ATTACHMENT, REFLECT_SAMPLED_IMAGE,
    REFLECT_SAMPLER, REFLECT_STORAGE_BUFFER, REFLECT_STORAGE_BUFFER_DYNAMIC, REFLECT_STORAGE_IMAGE,
    REFLECT_STORAGE_TEXEL_BUFFER, REFLECT_UNDEFINED, REFLECT_UNIFORM_BUFFER, REFLECT_UNIFORM_BUFFER_DYNAMIC,
    REFLECT_UNIFORM_TEXEL_BUFFER,
};

#[test]
fn descriptor_type_indices_match_spirv_reflect() {
    assert_eq!(R::Undefined as u32, REFLECT_UNDEFINED);
    assert_eq!(R::Sampler as u32, REFLECT_SAMPLER);
    assert_eq!(R::CombinedImageSampler as u32, REFLECT_COMBINED_IMAGE_SAMPLER);
    assert_eq!(R::SampledImage as u32, REFLECT_SAMPLED_IMAGE);
    assert_eq!(R::StorageImage as u32, REFLECT_STORAGE_IMAGE);
    assert_eq!(R::UniformTexelBuffer as u32, REFLECT_UNIFORM_TEXEL_BUFFER);
    assert_eq!(R::StorageTexelBuffer as u32, REFLECT_STORAGE_TEXEL_BUFFER);
    assert_eq!(R::UniformBuffer as u32, REFLECT_UNIFORM_BUFFER);
    assert_eq!(R::StorageBuffer as u32, REFLECT_STORAGE_BUFFER);
    assert_eq!(R::UniformBufferDynamic as u32, REFLECT_UNIFORM_BUFFER_DYNAMIC);
    assert_eq!(R::StorageBufferDynamic as u32, REFLECT_STORAGE_BUFFER_DYNAMIC);
    assert_eq!(R::InputAttachment as u32, REFLECT_INPUT_ATTACHMENT);
    assert_eq!(R::AccelerationStructureNV as u32, REFLECT_ACCELERATION_STRUCTURE);
}
