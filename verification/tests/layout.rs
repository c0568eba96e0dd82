use usami::layout::{create_descriptor_set_layouts, descriptor_types_defined, plan_set_layout, LayoutBinding};
use usami::reflection::{
    ReflectedBinding, ReflectedDescriptorSet, ReflectedEntryPoint, REFLECT_COMBINED_IMAGE_SAMPLER,
    REFLECT_INPUT_ATTACHMENT, REFLECT_SAMPLER, REFLECT_STORAGE_BUFFER, REFLECT_UNDEFINED, REFLECT_UNIFORM_BUFFER,
};
use usami::shader_plan::{plan_shader, plan_shaders_from};
use usami::stage::ShaderStage;
use usami::vk;

fn binding(binding: u32, descriptor_type: u32, count: u32) -> ReflectedBinding {
    ReflectedBinding { binding, descriptor_type, count }
}

#[test]
fn layout_of_buffers_only_is_not_update_after_bind() {
    let plan = plan_set_layout(&vec![binding(0, REFLECT_UNIFORM_BUFFER, 1), binding(2, REFLECT_STORAGE_BUFFER, 4)], vk::STAGE_COMPUTE, true);
    assert_eq!(
        plan.bindings,
        vec![
            LayoutBinding { binding: 0, descriptor_type: vk::DESCRIPTOR_TYPE_UNIFORM_BUFFER, descriptor_count: 1, stage_flags: vk::STAGE_COMPUTE },
            LayoutBinding { binding: 2, descriptor_type: vk::DESCRIPTOR_TYPE_STORAGE_BUFFER, descriptor_count: 4, stage_flags: vk::STAGE_COMPUTE },
        ]
    );
    assert!(plan.binding_flags.is_empty());
    assert_eq!(plan.flags, 0);
}

#[test]
fn layout_with_an_image_is_update_after_bind() {
    let plan = plan_set_layout(
        &vec![binding(0, REFLECT_UNIFORM_BUFFER, 1), binding(1, REFLECT_COMBINED_IMAGE_SAMPLER, 2)],
        vk::STAGE_FRAGMENT,
        true,
    );
    assert_eq!(plan.binding_flags, vec![0, vk::DESCRIPTOR_BINDING_UPDATE_AFTER_BIND]);
    assert_eq!(plan.flags, vk::DESCRIPTOR_SET_LAYOUT_CREATE_UPDATE_AFTER_BIND_POOL);
    assert_eq!(plan.bindings[1].descriptor_type, vk::DESCRIPTOR_TYPE_COMBINED_IMAGE_SAMPLER);
    assert_eq!(plan.bindings[1].descriptor_count, 2);
}

#[test]
fn layout_without_update_after_bind_request() {
    let plan = plan_set_layout(&vec![binding(0, REFLECT_SAMPLER, 1)], vk::STAGE_FRAGMENT, false);
    assert!(plan.binding_flags.is_empty());
    assert_eq!(plan.flags, 0);
    assert_eq!(plan.bindings[0].descriptor_type, vk::DESCRIPTOR_TYPE_SAMPLER);
}

#[test]
fn layouts_cover_every_set_number_up_to_the_largest() {
    let sets = vec![
        ReflectedDescriptorSet { set: 2, bindings: vec![binding(5, REFLECT_INPUT_ATTACHMENT, 1)] },
        ReflectedDescriptorSet { set: 0, bindings: vec![binding(0, REFLECT_UNIFORM_BUFFER, 1)] },
    ];
    let plans = create_descriptor_set_layouts(&sets, vk::STAGE_VERTEX, false);
    assert_eq!(plans.len(), 3);
    assert_eq!(plans[0].bindings[0].descriptor_type, vk::DESCRIPTOR_TYPE_UNIFORM_BUFFER);
    assert!(plans[1].bindings.is_empty());
    assert_eq!(plans[2].bindings, vec![LayoutBinding {
        binding: 5,
        descriptor_type: vk::DESCRIPTOR_TYPE_INPUT_ATTACHMENT,
        descriptor_count: 1,
        stage_flags: vk::STAGE_VERTEX,
    }]);
}

#[test]
fn layouts_later_set_of_a_number_wins() {
    let sets = vec![
        ReflectedDescriptorSet { set: 0, bindings: vec![binding(0, REFLECT_UNIFORM_BUFFER, 1)] },
        ReflectedDescriptorSet { set: 0, bindings: vec![binding(3, REFLECT_STORAGE_BUFFER, 1)] },
    ];
    let plans = create_descriptor_set_layouts(&sets, vk::STAGE_VERTEX, false);
    assert_eq!(plans.len(), 1);
    assert_eq!(plans[0].bindings[0].binding, 3);
}

#[test]
fn layouts_of_no_sets() {
    let plans = create_descriptor_set_layouts(&Vec::new(), vk::STAGE_VERTEX, true);
    assert_eq!(plans.len(), 1);
    assert!(plans[0].bindings.is_empty());
    assert_eq!(plans[0].flags, 0);
}

fn entry(name: &str, shader_stage: u32) -> ReflectedEntryPoint {
    ReflectedEntryPoint { name: name.to_string(), shader_stage }
}

#[test]
fn compute_shader_plan() {
    let sets = vec![
        ReflectedDescriptorSet { set: 0, bindings: vec![binding(0, REFLECT_SAMPLER, 1)] },
        ReflectedDescriptorSet { set: 2, bindings: vec![binding(3, REFLECT_SAMPLER, 1)] },
    ];
    let plan = plan_shader(&entry("main", vk::STAGE_COMPUTE), &sets);
    assert_eq!(plan.name, "main");
    assert_eq!(plan.stage, vk::STAGE_COMPUTE);
    assert_eq!(plan.next_stages, 0);
    assert_eq!(plan.stage_suffix, "comp");
    assert_eq!(plan.set_layouts.len(), 3);
    let sampler = |b: u32| LayoutBinding {
        binding: b,
        descriptor_type: vk::DESCRIPTOR_TYPE_SAMPLER,
        descriptor_count: 1,
        stage_flags: vk::STAGE_COMPUTE,
    };
    assert_eq!(plan.set_layouts[0].bindings, vec![sampler(0)]);
    assert_eq!(plan.set_layouts[0].binding_flags, vec![vk::DESCRIPTOR_BINDING_UPDATE_AFTER_BIND]);
    assert_eq!(plan.set_layouts[0].flags, vk::DESCRIPTOR_SET_LAYOUT_CREATE_UPDATE_AFTER_BIND_POOL);
    assert!(plan.set_layouts[1].bindings.is_empty());
    assert_eq!(plan.set_layouts[2].bindings, vec![sampler(3)]);
}

#[test]
fn vertex_shader_plan() {
    let sets = vec![ReflectedDescriptorSet { set: 0, bindings: vec![binding(0, REFLECT_UNIFORM_BUFFER, 1)] }];
    let plan = plan_shader(&entry("vs", vk::STAGE_VERTEX), &sets);
    assert_eq!(plan.next_stages, vk::STAGE_TESSELLATION_CONTROL | vk::STAGE_GEOMETRY | vk::STAGE_FRAGMENT);
    assert_eq!(plan.stage_suffix, "vert");
    assert_eq!(plan.set_layouts[0].flags, 0);
    assert!(plan.set_layouts[0].binding_flags.is_empty());
}

#[test]
fn undefined_descriptor_type_is_detected() {
    let sets = vec![
        ReflectedDescriptorSet { set: 0, bindings: vec![binding(0, REFLECT_SAMPLER, 1)] },
        ReflectedDescriptorSet { set: 1, bindings: vec![binding(0, REFLECT_STORAGE_BUFFER, 1), binding(1, REFLECT_UNDEFINED, 1)] },
    ];
    assert!(!descriptor_types_defined(&sets));
    let defined: Vec<ReflectedDescriptorSet> =
        sets[..1].iter().map(|s| ReflectedDescriptorSet { set: s.set, bindings: s.bindings.clone() }).collect();
    assert!(descriptor_types_defined(&defined));
    assert_eq!(create_descriptor_set_layouts(&defined, vk::STAGE_VERTEX, true).len(), 1);
    assert!(descriptor_types_defined(&Vec::new()));
}

#[test]
fn only_single_supported_stages_are_plannable() {
    assert!(ShaderStage::from_flags(0x100).is_none());
    assert!(ShaderStage::from_flags(vk::STAGE_VERTEX | vk::STAGE_FRAGMENT).is_none());
    assert_eq!(ShaderStage::from_flags(vk::STAGE_MESH_EXT), Some(ShaderStage::Mesh));
}

#[test]
fn plans_for_every_entry_point_of_the_name_in_order() {
    let entry_points = vec![entry("main", vk::STAGE_VERTEX), entry("other", 0x100), entry("main", vk::STAGE_FRAGMENT)];
    let sets = vec![
        vec![ReflectedDescriptorSet { set: 0, bindings: vec![binding(0, REFLECT_UNIFORM_BUFFER, 1)] }],
        vec![ReflectedDescriptorSet { set: 0, bindings: vec![binding(0, REFLECT_UNDEFINED, 1)] }],
        vec![ReflectedDescriptorSet { set: 1, bindings: vec![binding(2, REFLECT_COMBINED_IMAGE_SAMPLER, 1)] }],
    ];
    let plans = plan_shaders_from(&entry_points, &sets, "main");
    assert_eq!(plans.len(), 2);
    assert_eq!(plans[0].stage_suffix, "vert");
    assert_eq!(plans[0].set_layouts.len(), 1);
    assert_eq!(plans[0].set_layouts[0].bindings[0].descriptor_type, vk::DESCRIPTOR_TYPE_UNIFORM_BUFFER);
    assert_eq!(plans[1].stage_suffix, "frag");
    assert_eq!(plans[1].next_stages, 0);
    assert_eq!(plans[1].set_layouts.len(), 2);
    assert!(plans[1].set_layouts[0].bindings.is_empty());
    assert_eq!(plans[1].set_layouts[1].flags, vk::DESCRIPTOR_SET_LAYOUT_CREATE_UPDATE_AFTER_BIND_POOL);
}

#[test]
fn no_plans_when_no_entry_point_has_the_name() {
    let entry_points = vec![entry("main", vk::STAGE_COMPUTE)];
    let sets = vec![Vec::new()];
    assert!(plan_shaders_from(&entry_points, &sets, "absent").is_empty());
    assert!(plan_shaders_from(&Vec::new(), &Vec::new(), "main").is_empty());
}
