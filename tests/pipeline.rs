use vesuvius_engine::descriptor::{BindingLayout, DescriptorType, ReflectedBinding, ReflectedDescriptorKind, ShaderStage};
use vesuvius_engine::layout::{vertex_layout, InputFormat, ReflectedInput};
use vesuvius_engine::pipeline::{PipelineConfiguration, PipelineError, PipelineHandles, RenderPipeline, ShaderConfiguration, ShaderError, ShaderModule};
use vesuvius_engine::descriptor::{LayoutError, StageFlags};
use vesuvius_engine::renderer::{DescriptorSet, GameRenderer, ReloadStep, RenderError};
use vesuvius_engine::builder::BufferBuilder;
use vesuvius_engine::format::{Topology, VertexFormat};

fn config(name: &str) -> PipelineConfiguration {
    PipelineConfiguration {
        name: name.to_string(),
        shader: vec![
            ShaderConfiguration { resource: "vert.glsl".to_string(), kind: ShaderStage::Vertex },
            ShaderConfiguration { resource: "frag.glsl".to_string(), kind: ShaderStage::Fragment },
        ],
    }
}

fn two_set_layout() -> BindingLayout {
    BindingLayout::new()
        .merged_with(
            ShaderStage::Fragment,
            &vec![
                ReflectedBinding { set: 0, binding: 0, kind: ReflectedDescriptorKind::UniformBuffer, count: 1 },
                ReflectedBinding { set: 1, binding: 0, kind: ReflectedDescriptorKind::CombinedImageSampler, count: 1 },
            ],
        )
        .unwrap()
}

fn compiled(name: &str, first_handle: u64) -> RenderPipeline {
    let mut p = RenderPipeline::new(&config(name)).unwrap();
    let layout = vertex_layout(&vec![ReflectedInput { location: 0, format: InputFormat::R32G32Sfloat }]);
    p.install(
        PipelineHandles { pipeline: first_handle, layout: first_handle + 1, set_layouts: vec![first_handle + 2, first_handle + 3] },
        layout,
        two_set_layout(),
    );
    p
}

#[test]
fn configuration_builds_uncompiled_units() {
    let p = RenderPipeline::new(&config("p")).unwrap();
    assert_eq!(p.name, "p");
    assert_eq!(p.shader_modules.len(), 2);
    assert_eq!(p.shader_modules[0].shader_source_path, "vert.glsl");
    assert_eq!(p.shader_modules[0].kind, ShaderStage::Vertex);
    assert_eq!(p.shader_modules[1].kind, ShaderStage::Fragment);
    assert_eq!(p.vertex_shader, 0);
    assert!(p.vulkan_pipeline.is_none());
    assert!(p.shader_modules.iter().all(|m| m.vulkan_shader_module.is_none()));
}

#[test]
fn configuration_without_vertex_shader_is_rejected() {
    let mut c = config("p");
    c.shader.remove(0);
    assert_eq!(RenderPipeline::new(&c).unwrap_err(), PipelineError::NoVertexShader);
}

#[test]
fn recompiling_hands_back_the_previous_handles() {
    let mut p = compiled("p", 10);
    let layout = vertex_layout(&vec![]);
    let retired = p.install(PipelineHandles { pipeline: 20, layout: 21, set_layouts: vec![] }, layout, BindingLayout::new());
    let retired = retired.unwrap();
    assert_eq!((retired.pipeline, retired.layout, retired.set_layouts), (10, 11, vec![12, 13]));
    let now = p.vulkan_pipeline.as_ref().unwrap();
    assert_eq!((now.pipeline, now.layout), (20, 21));
}

#[test]
fn live_handle_count_stays_at_one_across_recompiles() {
    let mut live_pipelines: Vec<u64> = vec![10];
    let mut p = compiled("p", 10);
    for generation in 1..4u64 {
        let new_handle = 10 + generation * 10;
        live_pipelines.push(new_handle);
        let held = p.vulkan_pipeline.as_ref().unwrap().pipeline;
        assert!(live_pipelines.contains(&held));
        let retired = p.install(
            PipelineHandles { pipeline: new_handle, layout: new_handle + 1, set_layouts: vec![] },
            vertex_layout(&vec![]),
            BindingLayout::new(),
        );
        live_pipelines.retain(|h| *h != retired.as_ref().unwrap().pipeline);
        assert_eq!(live_pipelines, vec![p.vulkan_pipeline.as_ref().unwrap().pipeline]);
    }
}

#[test]
fn shader_unit_hands_back_its_previous_module() {
    let mut unit = ShaderModule::new(&"vert.glsl".to_string(), ShaderStage::Vertex);
    assert_eq!(unit.install(vec![1, 2, 3, 4], 5), None);
    assert_eq!(unit.install(vec![5, 6, 7, 8], 6), Some(5));
    assert_eq!(unit.shader_ir_code, vec![5, 6, 7, 8]);
    assert_eq!(unit.vulkan_shader_module, Some(6));
}

#[test]
fn set_index_past_the_groups_is_invalid() {
    let mut renderer = GameRenderer::new();
    renderer.add_pipeline(compiled("p", 10));
    let r = DescriptorSet::allocate(&renderer, "p", 2);
    assert_eq!(r.unwrap_err(), RenderError::Pipeline(PipelineError::InvalidSetIndex));
}

#[test]
fn allocation_carries_the_group_bindings() {
    let mut renderer = GameRenderer::new();
    renderer.add_pipeline(compiled("p", 10));
    let request = DescriptorSet::allocate(&renderer, "p", 1).unwrap();
    assert_eq!(request.layout, 13);
    let set = DescriptorSet::new(request, 99);
    assert_eq!(set.vk_descriptor_set, 99);
    assert_eq!(set.binding_type(0), Some(DescriptorType::CombinedImageSampler));
    assert_eq!(set.binding_type(1), None);
}

#[test]
fn allocation_needs_a_known_compiled_pipeline() {
    let mut renderer = GameRenderer::new();
    assert_eq!(DescriptorSet::allocate(&renderer, "p", 0).unwrap_err(), RenderError::PipelineNotFound);
    renderer.add_pipeline(RenderPipeline::new(&config("p")).unwrap());
    assert_eq!(DescriptorSet::allocate(&renderer, "p", 0).unwrap_err(), RenderError::Pipeline(PipelineError::NotCompiled));
}

#[test]
fn pipelines_are_found_by_name() {
    let mut renderer = GameRenderer::new();
    renderer.add_pipeline(compiled("a", 10));
    renderer.add_pipeline(compiled("b", 20));
    assert_eq!(renderer.pipeline_index("b"), Some(1));
    assert_eq!(renderer.find_pipeline("a").unwrap().name, "a");
    assert!(renderer.find_pipeline("c").is_none());
}

#[test]
fn reload_recompiles_known_names_and_creates_the_rest() {
    let mut renderer = GameRenderer::new();
    renderer.add_pipeline(compiled("a", 10));
    let plan = renderer.reload_plan(&vec![config("b"), config("a"), config("b")]);
    assert_eq!(
        plan,
        vec![
            ReloadStep::Create { config: 0 },
            ReloadStep::Recompile { pipeline: 0, config: 1 },
            ReloadStep::Recompile { pipeline: 1, config: 2 },
        ]
    );
}

#[test]
fn flushing_resolves_pipelines_and_empties_the_queue() {
    let mut renderer = GameRenderer::new();
    renderer.add_pipeline(compiled("a", 10));
    renderer.add_pipeline(compiled("b", 20));
    for name in ["b", "b", "a"] {
        let mut builder = BufferBuilder::builder(VertexFormat::PositionColor, Topology::Triangle, name);
        builder.begin(0, 0).color(0, 0, 0).end();
        builder.build(&mut renderer);
    }
    let calls = renderer.queue_buffer_builder().unwrap();
    assert!(renderer.queued_buffer_builder.is_empty());
    assert_eq!(calls.len(), 2);
    assert_eq!(calls[0].pipeline, 1);
    assert_eq!(calls[0].batch.vertices.len(), 2);
    assert_eq!(calls[1].pipeline, 0);
}

#[test]
fn flushing_with_an_unknown_pipeline_fails() {
    let mut renderer = GameRenderer::new();
    let mut builder = BufferBuilder::builder(VertexFormat::PositionColor, Topology::Triangle, "missing");
    builder.begin(0, 0).color(0, 0, 0).end();
    builder.build(&mut renderer);
    assert_eq!(renderer.queue_buffer_builder().unwrap_err(), RenderError::PipelineNotFound);
    assert!(renderer.queued_buffer_builder.is_empty());
}

#[test]
fn pipeline_p_lays_out_vec2_then_vec3() {
    let p = RenderPipeline::new(&config("p")).unwrap();
    let vertex_unit = &p.shader_modules[p.vertex_shader];
    assert_eq!(vertex_unit.kind, ShaderStage::Vertex);
    assert_eq!(vertex_unit.shader_source_path, "vert.glsl");
    let layout = vertex_layout(&vec![
        ReflectedInput { location: 1, format: InputFormat::R32G32B32Sfloat },
        ReflectedInput { location: 0, format: InputFormat::R32G32Sfloat },
    ]);
    let described: Vec<(u32, u32, u32)> =
        layout.attributes.iter().map(|a| (a.location, a.format.size(), a.offset)).collect();
    assert_eq!(described, vec![(0, 8, 0), (1, 12, 8)]);
    assert_eq!(layout.stride, 20);
}

#[test]
fn layouts_derive_from_each_unit_in_order() {
    let p = RenderPipeline::new(&config("p")).unwrap();
    let inputs = vec![
        ReflectedInput { location: 1, format: InputFormat::R32G32B32Sfloat },
        ReflectedInput { location: 0, format: InputFormat::R32G32Sfloat },
    ];
    let reflected = vec![
        vec![ReflectedBinding { set: 1, binding: 0, kind: ReflectedDescriptorKind::UniformBuffer, count: 1 }],
        vec![
            ReflectedBinding { set: 0, binding: 0, kind: ReflectedDescriptorKind::CombinedImageSampler, count: 1 },
            ReflectedBinding { set: 1, binding: 0, kind: ReflectedDescriptorKind::UniformBuffer, count: 1 },
        ],
    ];
    let (vertex, bindings) = p.derive_layouts(&inputs, &reflected).unwrap();
    assert_eq!(vertex.stride, 20);
    assert_eq!(vertex.attributes[0].location, 0);
    assert_eq!(bindings.set_count(), 2);
    assert_eq!(bindings.group(0)[0].descriptor_type, DescriptorType::CombinedImageSampler);
    assert_eq!(bindings.group(1).len(), 1);
    assert_eq!(bindings.group(1)[0].stages, StageFlags { vertex: true, fragment: true });
}

#[test]
fn layouts_reject_an_undefined_descriptor_kind() {
    let p = RenderPipeline::new(&config("p")).unwrap();
    let reflected = vec![
        vec![],
        vec![ReflectedBinding { set: 0, binding: 2, kind: ReflectedDescriptorKind::Undefined, count: 1 }],
    ];
    assert_eq!(
        p.derive_layouts(&vec![], &reflected).unwrap_err(),
        ShaderError::Layout(LayoutError::UnsupportedDescriptorKind { set: 0, binding: 2 })
    );
}

#[test]
fn flushed_draws_carry_their_buffer_bytes() {
    let mut renderer = GameRenderer::new();
    renderer.add_pipeline(compiled("a", 10));
    let mut builder = BufferBuilder::builder(VertexFormat::PositionColor, Topology::Quad, "a");
    for i in 0..4u32 {
        builder.begin(i, 0x100 + i).color(1, 2, 3).end();
    }
    builder.build(&mut renderer);
    let calls = renderer.queue_buffer_builder().unwrap();
    assert_eq!(calls.len(), 1);
    assert_eq!(calls[0].vertex_bytes.len(), 4 * 20);
    assert_eq!(&calls[0].vertex_bytes[20..28], &[1, 0, 0, 0, 0x01, 0x01, 0, 0]);
    assert_eq!(calls[0].index_bytes, vec![0, 0, 1, 0, 3, 0, 3, 0, 1, 0, 2, 0]);
}
