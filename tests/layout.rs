use vesuvius_engine::layout::{pack_inputs, sort_by_location, vertex_layout, InputFormat, ReflectedInput, VertexAttribute};

fn input(location: u32, format: InputFormat) -> ReflectedInput {
    ReflectedInput { location, format }
}

#[test]
fn vec2_and_vec3_inputs_give_stride_twenty() {
    let layout = vertex_layout(&vec![input(0, InputFormat::R32G32Sfloat), input(1, InputFormat::R32G32B32Sfloat)]);
    assert_eq!(
        layout.attributes,
        vec![
            VertexAttribute { location: 0, format: InputFormat::R32G32Sfloat, offset: 0 },
            VertexAttribute { location: 1, format: InputFormat::R32G32B32Sfloat, offset: 8 },
        ]
    );
    assert_eq!(layout.stride, 20);
    assert_eq!(layout.attributes[0].format.size(), 8);
    assert_eq!(layout.attributes[1].format.size(), 12);
}

#[test]
fn inputs_are_sorted_by_location_before_packing() {
    let layout = vertex_layout(&vec![
        input(2, InputFormat::R32Sfloat),
        input(0, InputFormat::R32G32B32A32Sfloat),
        input(1, InputFormat::R32G32Uint),
    ]);
    let locations: Vec<u32> = layout.attributes.iter().map(|a| a.location).collect();
    let offsets: Vec<u32> = layout.attributes.iter().map(|a| a.offset).collect();
    assert_eq!(locations, vec![0, 1, 2]);
    assert_eq!(offsets, vec![0, 16, 24]);
    assert_eq!(layout.stride, 28);
}

#[test]
fn offsets_increase_and_end_at_the_stride() {
    let layout = vertex_layout(&vec![
        input(3, InputFormat::R32G32B32Sint),
        input(1, InputFormat::R32Uint),
        input(0, InputFormat::R32G32Sfloat),
        input(2, InputFormat::R32G32B32A32Uint),
    ]);
    for pair in layout.attributes.windows(2) {
        assert!(pair[0].offset < pair[1].offset);
        assert_eq!(pair[0].offset + pair[0].format.size(), pair[1].offset);
    }
    let last = layout.attributes.last().unwrap();
    assert_eq!(last.offset + last.format.size(), layout.stride);
    assert_eq!(layout.stride, 8 + 4 + 16 + 12);
}

#[test]
fn undefined_format_takes_no_space() {
    let layout = vertex_layout(&vec![input(0, InputFormat::Undefined), input(1, InputFormat::R32Sfloat)]);
    assert_eq!(layout.attributes[0].offset, 0);
    assert_eq!(layout.attributes[1].offset, 0);
    assert_eq!(layout.stride, 4);
}

#[test]
fn no_inputs_give_an_empty_layout() {
    let layout = vertex_layout(&vec![]);
    assert!(layout.attributes.is_empty());
    assert_eq!(layout.stride, 0);
}

#[test]
fn sorting_keeps_every_input() {
    let sorted = sort_by_location(&vec![input(5, InputFormat::R32Uint), input(1, InputFormat::R32Sint), input(3, InputFormat::R32Sfloat)]);
    assert_eq!(sorted, vec![input(1, InputFormat::R32Sint), input(3, InputFormat::R32Sfloat), input(5, InputFormat::R32Uint)]);
}

#[test]
fn packing_keeps_the_given_order() {
    let layout = pack_inputs(&vec![input(1, InputFormat::R32G32B32Sfloat), input(0, InputFormat::R32Sfloat)]);
    assert_eq!(layout.attributes[0].offset, 0);
    assert_eq!(layout.attributes[1].offset, 12);
    assert_eq!(layout.stride, 16);
}

#[test]
fn format_codes_of_the_graphics_api() {
    assert_eq!(InputFormat::Undefined.vulkan_format(), 0);
    assert_eq!(InputFormat::R32Sfloat.vulkan_format(), 100);
    assert_eq!(InputFormat::R32G32Sint.vulkan_format(), 102);
    assert_eq!(InputFormat::R32G32Uint.vulkan_format(), 101);
    assert_eq!(InputFormat::R32G32Sfloat.vulkan_format(), 103);
    assert_eq!(InputFormat::R32G32B32Sfloat.vulkan_format(), 106);
    assert_eq!(InputFormat::R32G32B32A32Sfloat.vulkan_format(), 109);
}
