use vesuvius_engine::format::{Topology, VertexFormat};

#[test]
fn quad_indices_follow_the_fan_pattern() {
    assert_eq!(Topology::Quad.indices(0), vec![0, 1, 3, 3, 1, 2]);
    assert_eq!(Topology::Quad.indices(8), vec![8, 9, 11, 11, 9, 10]);
}

#[test]
fn triangle_indices_are_consecutive() {
    assert_eq!(Topology::Triangle.indices(0), vec![0, 1, 2]);
    assert_eq!(Topology::Triangle.indices(6), vec![6, 7, 8]);
}

#[test]
fn largest_offset_still_fits() {
    assert_eq!(Topology::Quad.indices(65532), vec![65532, 65533, 65535, 65535, 65533, 65534]);
}

#[test]
fn vertex_and_index_counts_per_primitive() {
    assert_eq!(Topology::Quad.vertex_count(), 4);
    assert_eq!(Topology::Triangle.vertex_count(), 3);
    assert_eq!(Topology::Quad.index_count(), 6);
    assert_eq!(Topology::Triangle.index_count(), 3);
}

#[test]
fn vertex_sizes_of_each_format() {
    assert_eq!(VertexFormat::PositionColor.vertex_size(), 20);
    assert_eq!(VertexFormat::PositionTexCoord.vertex_size(), 16);
    assert_eq!(VertexFormat::PositionTexCoordColor.vertex_size(), 28);
}
