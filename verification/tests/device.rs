use usami::descriptor::{
    get_dst_binding, simple_descriptor_pool_sizes, simple_descriptor_set_layout_bindings, DescriptorPoolSize,
};
use usami::device::{
    device_name_length, plan_device_features, select_graphics_queue_family, EXT_MESH_SHADER, EXT_SHADER_OBJECT,
    NV_COOPERATIVE_MATRIX,
};
use usami::memory::MemoryProperties;
use usami::vk;

#[test]
fn first_graphics_queue_family_is_chosen() {
    let families = vec![0x4, 0x2, 0x7, 0x1];
    assert_eq!(select_graphics_queue_family(0x10de, 7, &families, None, None), Some(2));
    assert_eq!(select_graphics_queue_family(0x10de, 7, &families, Some(0x10de), Some(7)), Some(2));
}

#[test]
fn device_filters_reject() {
    let families = vec![0x1];
    assert_eq!(select_graphics_queue_family(0x10de, 7, &families, Some(0x1002), None), None);
    assert_eq!(select_graphics_queue_family(0x10de, 7, &families, None, Some(8)), None);
    // Ids compare as u32.
    assert_eq!(select_graphics_queue_family(0x10de, 7, &families, Some(0x1_0000_10de), None), Some(0));
}

#[test]
fn no_graphics_queue_family() {
    assert_eq!(select_graphics_queue_family(1, 2, &vec![0x2, 0x4], None, None), None);
    assert_eq!(select_graphics_queue_family(1, 2, &Vec::new(), None, None), None);
}

#[test]
fn device_name_lengths() {
    assert_eq!(device_name_length(b"GPU\0\0junk"), 3);
    assert_eq!(device_name_length(b"\0abc"), 0);
    assert_eq!(device_name_length(b"abc"), 3);
    assert_eq!(device_name_length(b""), 0);
}

#[test]
fn device_features_for_extensions() {
    let exts = vec![EXT_SHADER_OBJECT.to_string(), "VK_EXT_debug_utils".to_string(), NV_COOPERATIVE_MATRIX.to_string()];
    let plan = plan_device_features(&exts, vk::API_VERSION_1_3, 1, 0);
    assert!(plan.shader_object);
    assert!(plan.cooperative_matrix_nv);
    assert!(!plan.mesh_shader);
    assert!(!plan.cooperative_matrix);
    assert!(!plan.transform_feedback);
    assert!(!plan.conditional_rendering);
    assert!(plan.vulkan_11_12);
    assert!(plan.vulkan_13);
    assert!(plan.geometry_shader);
    assert!(!plan.shader_tessellation_and_geometry_point_size);
}

#[test]
fn device_features_by_version() {
    let exts = vec![EXT_MESH_SHADER.to_string()];
    let plan = plan_device_features(&exts, vk::API_VERSION_1_2, 0, 1);
    assert!(plan.mesh_shader);
    assert!(plan.vulkan_11_12);
    assert!(!plan.vulkan_13);
    assert!(!plan.geometry_shader);
    assert!(plan.shader_tessellation_and_geometry_point_size);
    let old = plan_device_features(&Vec::new(), 4198400, 0, 0);
    assert!(!old.vulkan_11_12);
    assert!(!old.vulkan_13);
}

#[test]
fn memory_type_first_allowed_with_flags() {
    let props = MemoryProperties { memory_type_count: 4, memory_type_flags: vec![0x1, 0x6, 0x7, 0x6] };
    assert_eq!(props.find_memory_type(0b1111, 0x6), Some(1));
    assert_eq!(props.find_memory_type(0b1101, 0x6), Some(2));
    assert_eq!(props.find_memory_type(0b1111, 0), Some(0));
    assert_eq!(props.find_memory_type(0b0001, 0x2), None);
}

#[test]
fn memory_type_beyond_count_is_ignored() {
    let props = MemoryProperties { memory_type_count: 2, memory_type_flags: vec![0x1, 0x1, 0x2] };
    assert_eq!(props.find_memory_type(u32::MAX, 0x2), None);
}

const ALL_TYPES: [i32; 11] = [
    vk::DESCRIPTOR_TYPE_SAMPLER,
    vk::DESCRIPTOR_TYPE_COMBINED_IMAGE_SAMPLER,
    vk::DESCRIPTOR_TYPE_SAMPLED_IMAGE,
    vk::DESCRIPTOR_TYPE_STORAGE_IMAGE,
    vk::DESCRIPTOR_TYPE_UNIFORM_TEXEL_BUFFER,
    vk::DESCRIPTOR_TYPE_STORAGE_TEXEL_BUFFER,
    vk::DESCRIPTOR_TYPE_UNIFORM_BUFFER,
    vk::DESCRIPTOR_TYPE_STORAGE_BUFFER,
    vk::DESCRIPTOR_TYPE_UNIFORM_BUFFER_DYNAMIC,
    vk::DESCRIPTOR_TYPE_STORAGE_BUFFER_DYNAMIC,
    vk::DESCRIPTOR_TYPE_INPUT_ATTACHMENT,
];

#[test]
fn simple_pool_sizes() {
    let sizes = simple_descriptor_pool_sizes(&ALL_TYPES[..2], 3);
    assert_eq!(sizes, vec![
        DescriptorPoolSize { ty: vk::DESCRIPTOR_TYPE_SAMPLER, descriptor_count: 3 },
        DescriptorPoolSize { ty: vk::DESCRIPTOR_TYPE_COMBINED_IMAGE_SAMPLER, descriptor_count: 3 },
    ]);
}

#[test]
fn simple_layout_bindings() {
    let bindings = simple_descriptor_set_layout_bindings(&ALL_TYPES, vk::STAGE_ALL);
    assert_eq!(bindings.len(), ALL_TYPES.len());
    for (i, b) in bindings.iter().enumerate() {
        assert_eq!(b.binding, i as u32);
        assert_eq!(b.descriptor_type, ALL_TYPES[i]);
        assert_eq!(b.descriptor_count, 1);
        let expected = if ALL_TYPES[i] == vk::DESCRIPTOR_TYPE_INPUT_ATTACHMENT { vk::STAGE_FRAGMENT } else { vk::STAGE_ALL };
        assert_eq!(b.stage_flags, expected);
    }
}

#[test]
fn dst_binding_of_each_type() {
    for (i, t) in ALL_TYPES.iter().enumerate() {
        assert_eq!(get_dst_binding(&ALL_TYPES, *t), i as u32);
    }
    assert_eq!(get_dst_binding(&[3, 9], 9), 1);
}
