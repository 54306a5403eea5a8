use vesuvius_engine::descriptor::{
    BindingLayout, DescriptorType, LayoutError, ReflectedBinding, ReflectedDescriptorKind, ShaderStage, StageFlags,
};

fn binding(set: u32, binding: u32, kind: ReflectedDescriptorKind) -> ReflectedBinding {
    ReflectedBinding { set, binding, kind, count: 1 }
}

#[test]
fn stages_sharing_a_binding_are_merged() {
    let vertex = BindingLayout::new()
        .merged_with(ShaderStage::Vertex, &vec![binding(0, 0, ReflectedDescriptorKind::UniformBuffer)])
        .unwrap();
    let both = vertex
        .merged_with(
            ShaderStage::Fragment,
            &vec![binding(0, 0, ReflectedDescriptorKind::UniformBuffer), binding(1, 0, ReflectedDescriptorKind::CombinedImageSampler)],
        )
        .unwrap();
    assert_eq!(both.set_count, 2);
    assert_eq!(both.bindings.len(), 2);
    assert_eq!(both.bindings[0].stages, StageFlags { vertex: true, fragment: true });
    assert_eq!(both.bindings[0].descriptor_type, DescriptorType::UniformBuffer);
    assert_eq!(both.bindings[1].stages, StageFlags { vertex: false, fragment: true });
    assert_eq!(both.bindings[1].descriptor_type, DescriptorType::CombinedImageSampler);
    assert_eq!(both.set_count(), 2);
}

#[test]
fn groups_hold_the_bindings_of_each_set() {
    let layout = BindingLayout::new()
        .merged_with(
            ShaderStage::Fragment,
            &vec![
                binding(2, 0, ReflectedDescriptorKind::UniformBuffer),
                binding(0, 1, ReflectedDescriptorKind::CombinedImageSampler),
                binding(2, 3, ReflectedDescriptorKind::StorageBuffer),
            ],
        )
        .unwrap();
    assert_eq!(layout.set_count(), 3);
    let set0: Vec<u32> = layout.group(0).iter().map(|b| b.binding).collect();
    let set2: Vec<u32> = layout.group(2).iter().map(|b| b.binding).collect();
    assert_eq!(set0, vec![1]);
    assert!(layout.group(1).is_empty());
    assert_eq!(set2, vec![0, 3]);
}

#[test]
fn undefined_descriptor_kind_is_rejected() {
    let r = BindingLayout::new().merged_with(
        ShaderStage::Vertex,
        &vec![binding(0, 0, ReflectedDescriptorKind::UniformBuffer), binding(0, 4, ReflectedDescriptorKind::Undefined)],
    );
    assert_eq!(r.unwrap_err(), LayoutError::UnsupportedDescriptorKind { set: 0, binding: 4 });
}

#[test]
fn descriptor_kinds_map_one_for_one() {
    assert_eq!(ReflectedDescriptorKind::Undefined.descriptor_type(), None);
    assert_eq!(ReflectedDescriptorKind::CombinedImageSampler.descriptor_type(), Some(DescriptorType::CombinedImageSampler));
    assert_eq!(ReflectedDescriptorKind::UniformBuffer.descriptor_type(), Some(DescriptorType::UniformBuffer));
    assert_eq!(DescriptorType::UniformBuffer.vulkan_code(), 6);
    assert_eq!(DescriptorType::CombinedImageSampler.vulkan_code(), 1);
}

#[test]
fn stage_flags_union() {
    let v = StageFlags::of(ShaderStage::Vertex);
    let f = StageFlags::of(ShaderStage::Fragment);
    assert_eq!(v, StageFlags { vertex: true, fragment: false });
    assert_eq!(v.union(&f), StageFlags { vertex: true, fragment: true });
}

#[test]
fn sets_are_positioned_by_set_number() {
    let vertex = BindingLayout::new()
        .merged_with(ShaderStage::Vertex, &vec![binding(1, 0, ReflectedDescriptorKind::UniformBuffer)])
        .unwrap();
    let both = vertex
        .merged_with(ShaderStage::Fragment, &vec![binding(0, 0, ReflectedDescriptorKind::CombinedImageSampler)])
        .unwrap();
    assert_eq!(both.set_count(), 2);
    assert_eq!(both.group(0)[0].descriptor_type, DescriptorType::CombinedImageSampler);
    assert_eq!(both.group(1)[0].descriptor_type, DescriptorType::UniformBuffer);
}
