use vesuvius_engine::batch::{batch_runs, index_bytes, BatchError};
use vesuvius_engine::builder::{BufferBuilder, Vertex};
use vesuvius_engine::format::{Topology, VertexFormat};

fn bits(v: f32) -> u32 {
    v.to_bits()
}

fn quad(pipeline: &str, texture: Option<u64>) -> BufferBuilder {
    let mut b = BufferBuilder::builder(VertexFormat::PositionColor, Topology::Quad, pipeline);
    if let Some(t) = texture {
        b.image(t);
    }
    for (x, y) in [(0.0f32, 0.0f32), (1.0, 0.0), (1.0, 1.0), (0.0, 1.0)] {
        b.begin(bits(x), bits(y)).color(bits(1.0), bits(0.0), bits(0.0)).end();
    }
    b
}

#[test]
fn non_adjacent_equal_builders_stay_separate() {
    let a = || quad("position_color", None);
    let b = || quad("position_color", Some(7));
    let batches = batch_runs(&vec![a(), a(), b(), a()]).unwrap();
    assert_eq!(batches.len(), 3);
    assert_eq!(batches[0].texture, None);
    assert_eq!(batches[0].vertices.len(), 8);
    assert_eq!(batches[1].texture, Some(7));
    assert_eq!(batches[1].vertices.len(), 4);
    assert_eq!(batches[2].texture, None);
    assert_eq!(batches[2].vertices.len(), 4);
}

#[test]
fn quad_run_has_six_indices_per_builder() {
    for k in 1..6usize {
        let queue: Vec<BufferBuilder> = (0..k).map(|_| quad("p", None)).collect();
        let batches = batch_runs(&queue).unwrap();
        assert_eq!(batches.len(), 1);
        assert_eq!(batches[0].indices.len(), 6 * k);
        assert_eq!(*batches[0].indices.iter().max().unwrap() as usize, 4 * k - 1);
    }
}

#[test]
fn run_indices_are_offset_by_earlier_vertices() {
    let batches = batch_runs(&vec![quad("p", None), quad("p", None)]).unwrap();
    assert_eq!(batches[0].indices, vec![0, 1, 3, 3, 1, 2, 4, 5, 7, 7, 5, 6]);
}

#[test]
fn triangles_take_three_indices_each() {
    let mut t = BufferBuilder::builder(VertexFormat::PositionTexCoord, Topology::Triangle, "tex");
    for i in 0..6u32 {
        t.begin(i, i).uv(i, i).end();
    }
    let batches = batch_runs(&vec![t]).unwrap();
    assert_eq!(batches[0].indices, vec![0, 1, 2, 3, 4, 5]);
    assert_eq!(batches[0].topology, Topology::Triangle);
    assert_eq!(batches[0].pipeline, "tex");
}

#[test]
fn different_pipelines_or_formats_split_runs() {
    let mut tri = BufferBuilder::builder(VertexFormat::PositionColor, Topology::Triangle, "p");
    tri.begin(0, 0).color(0, 0, 0).end();
    let batches = batch_runs(&vec![quad("p", None), quad("q", None), tri, quad("p", None)]).unwrap();
    assert_eq!(batches.len(), 4);
    assert_eq!(batches[1].pipeline, "q");
    assert!(batches[2].indices.is_empty());
}

#[test]
fn empty_queue_gives_no_batches() {
    assert!(batch_runs(&vec![]).unwrap().is_empty());
}

#[test]
fn run_beyond_sixteen_bit_indices_is_rejected() {
    let mut big = BufferBuilder::builder(VertexFormat::PositionColor, Topology::Quad, "p");
    for _ in 0..65536u32 {
        big.begin(0, 0).color(0, 0, 0).end();
    }
    assert!(batch_runs(&vec![big.clone()]).is_ok());
    assert_eq!(batch_runs(&vec![big, quad("p", None)]).unwrap_err(), BatchError::TooManyVertices);
}

#[test]
fn builder_records_completed_vertices() {
    let mut b = BufferBuilder::builder(VertexFormat::PositionTexCoordColor, Topology::Quad, "msdf_font");
    b.image(3).begin(1, 2).uv(3, 4).color(5, 6, 7).end();
    assert_eq!(b.texture, Some(3));
    assert_eq!(b.current_vertex, None);
    assert_eq!(b.pipeline, "msdf_font");
    assert_eq!(
        b.vertices,
        vec![Vertex {
            position: vesuvius_engine::builder::Bits2 { x: 1, y: 2 },
            color: Some(vesuvius_engine::builder::Bits3 { x: 5, y: 6, z: 7 }),
            uv: Some(vesuvius_engine::builder::Bits2 { x: 3, y: 4 }),
        }]
    );
    assert!(b.batches_with(&b.clone()));
}

#[test]
fn vertex_bytes_are_little_endian_in_attribute_order() {
    let mut b = BufferBuilder::builder(VertexFormat::PositionTexCoordColor, Topology::Quad, "p");
    b.begin(0x04030201, 0x08070605).uv(0x0c0b0a09, 0x100f0e0d).color(0x11, 0x22, 0x33).end();
    let bytes = VertexFormat::PositionTexCoordColor.vertex_bytes(&b.vertices);
    assert_eq!(bytes.len(), 28);
    assert_eq!(&bytes[0..8], &[1, 2, 3, 4, 5, 6, 7, 8]);
    assert_eq!(&bytes[8..20], &[0x11, 0, 0, 0, 0x22, 0, 0, 0, 0x33, 0, 0, 0]);
    assert_eq!(&bytes[20..28], &[9, 10, 11, 12, 13, 14, 15, 16]);
    let only_color = VertexFormat::PositionColor.vertex_bytes(&b.vertices);
    assert_eq!(only_color.len(), 20);
    let mut raw = vec![0xff];
    VertexFormat::PositionTexCoord.extend_raw_data(&mut raw, b.vertices[0]);
    assert_eq!(raw.len(), 17);
    assert_eq!(&raw[9..17], &[9, 10, 11, 12, 13, 14, 15, 16]);
}

#[test]
fn distinct_equal_builders_are_not_merged_across_a_run() {
    let a1 = quad("p", None);
    let mut a2 = quad("p", None);
    a2.begin(9, 9).color(9, 9, 9).end();
    let a3 = BufferBuilder::builder(VertexFormat::PositionColor, Topology::Quad, "p");
    let b = quad("p", Some(1));
    let batches = batch_runs(&vec![a1, a2, b, a3]).unwrap();
    assert_eq!(batches.len(), 3);
    assert_eq!(batches[0].vertices.len(), 9);
    assert_eq!(batches[1].texture, Some(1));
    assert!(batches[2].vertices.is_empty());
}

#[test]
fn index_bytes_are_little_endian() {
    assert_eq!(index_bytes(&vec![1, 0x0203, 0xffff]), vec![1, 0, 3, 2, 0xff, 0xff]);
    assert!(index_bytes(&vec![]).is_empty());
}
