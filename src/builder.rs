//! Buffer builders: immediate-mode vertex emission for one logical draw call.
//!
//! Vertex components are carried as the bit patterns of 32-bit floats; the
//! batching logic only moves them and never computes with them.
use vstd::prelude::*;
use crate::format::{Topology, VertexFormat};

verus! {

/// Two 32-bit float components, as bit patterns.
#[derive(Clone, Copy, PartialEq, Eq, Structural, Debug, Hash)]
pub struct Bits2 {
    pub x: u32,
    pub y: u32,
}

/// Three 32-bit float components, as bit patterns.
#[derive(Clone, Copy, PartialEq, Eq, Structural, Debug, Hash)]
pub struct Bits3 {
    pub x: u32,
    pub y: u32,
    pub z: u32,
}

/// One vertex: a position, and a color and texture coordinate where the
/// vertex format carries them.
#[derive(Clone, Copy, PartialEq, Eq, Structural, Debug, Hash)]
pub struct Vertex {
    pub position: Bits2,
    pub color: Option<Bits3>,
    pub uv: Option<Bits2>,
}

impl Vertex {
    /// The vertex has every attribute that `format` stores.
    pub open spec fn fits(self, format: VertexFormat) -> bool {
        &&& format.spec_has_color() ==> self.color is Some
        &&& format.spec_has_uv() ==> self.uv is Some
    }

    /// Whether the vertex has every attribute that `format` stores.
    pub fn fits_format(&self, format: &VertexFormat) -> (r: bool)
        ensures
            r == self.fits(*format),
    {
        (!format.has_color() || self.color.is_some()) && (!format.has_uv() || self.uv.is_some())
    }
}

/// The vertices of one draw call together with what decides how they are
/// drawn: vertex format, topology, bound texture and target pipeline.
#[derive(Clone, Debug)]
pub struct BufferBuilder {
    /// The completed vertices, in emission order.
    pub vertices: Vec<Vertex>,
    pub vertex_format: VertexFormat,
    pub topology: Topology,
    /// The vertex being emitted, between `begin` and `end`.
    pub current_vertex: Option<Vertex>,
    /// Identity of the texture bound for the draw, if any.
    pub texture: Option<u64>,
    /// Name of the pipeline the draw targets.
    pub pipeline: String,
}

/// Two builders can be drawn in one batch: same vertex format, topology,
/// texture and pipeline.
pub open spec fn batch_eq(a: BufferBuilder, b: BufferBuilder) -> bool {
    &&& a.vertex_format == b.vertex_format
    &&& a.topology == b.topology
    &&& a.texture == b.texture
    &&& a.pipeline@ == b.pipeline@
}

impl BufferBuilder {
    /// Every completed vertex has the attributes of the builder's format.
    pub open spec fn wf(&self) -> bool {
        forall|i: int| 0 <= i < self.vertices@.len() ==> (#[trigger] self.vertices@[i]).fits(self.vertex_format)
    }

    /// An empty builder for draws of `vertex_format` and `topology` through
    /// the pipeline named `pipeline`, with no texture.
    pub fn builder(vertex_format: VertexFormat, topology: Topology, pipeline: &str) -> (r: BufferBuilder)
        ensures
            r.vertices@.len() == 0,
            r.vertex_format == vertex_format,
            r.topology == topology,
            r.current_vertex is None,
            r.texture is None,
            r.pipeline@ == pipeline@,
            r.wf(),
    {
        BufferBuilder {
            vertices: Vec::new(),
            vertex_format,
            topology,
            current_vertex: None,
            texture: None,
            pipeline: pipeline.to_owned(),
        }
    }

    /// Binds the texture with identity `texture` for the draw.
    pub fn image(&mut self, texture: u64) -> (r: &mut BufferBuilder)
        ensures
            *r == (BufferBuilder { texture: Some(texture), ..*old(self) }),
            *final(self) == *final(r),
    {
        self.texture = Some(texture);
        self
    }

    /// Starts a vertex at position (`x`, `y`). No other vertex may be in
    /// progress.
    pub fn begin(&mut self, x: u32, y: u32) -> (r: &mut BufferBuilder)
        requires
            old(self).current_vertex is None,
        ensures
            *r == (BufferBuilder {
                current_vertex: Some(Vertex { position: Bits2 { x, y }, color: None, uv: None }),
                ..*old(self)
            }),
            *final(self) == *final(r),
    {
        self.current_vertex = Some(Vertex { position: Bits2 { x, y }, color: None, uv: None });
        self
    }

    /// Sets the color of the vertex in progress.
    pub fn color(&mut self, red: u32, green: u32, blue: u32) -> (r: &mut BufferBuilder)
        requires
            old(self).current_vertex is Some,
        ensures
            *r == (BufferBuilder {
                current_vertex: Some(Vertex {
                    color: Some(Bits3 { x: red, y: green, z: blue }),
                    ..old(self).current_vertex->0
                }),
                ..*old(self)
            }),
            *final(self) == *final(r),
    {
        let v = self.current_vertex.unwrap();
        self.current_vertex = Some(Vertex { color: Some(Bits3 { x: red, y: green, z: blue }), ..v });
        self
    }

    /// Sets the texture coordinate of the vertex in progress.
    pub fn uv(&mut self, u: u32, v: u32) -> (r: &mut BufferBuilder)
        requires
            old(self).current_vertex is Some,
        ensures
            *r == (BufferBuilder {
                current_vertex: Some(Vertex { uv: Some(Bits2 { x: u, y: v }), ..old(self).current_vertex->0 }),
                ..*old(self)
            }),
            *final(self) == *final(r),
    {
        let cur = self.current_vertex.unwrap();
        self.current_vertex = Some(Vertex { uv: Some(Bits2 { x: u, y: v }), ..cur });
        self
    }

    /// Completes the vertex in progress, which must have the attributes of
    /// the builder's format, and appends it to the vertices.
    pub fn end(&mut self)
        requires
            old(self).current_vertex is Some,
            old(self).current_vertex->0.fits(old(self).vertex_format),
            old(self).wf(),
        ensures
            *final(self) == (BufferBuilder {
                vertices: final(self).vertices,
                current_vertex: None,
                ..*old(self)
            }),
            final(self).vertices@ == old(self).vertices@.push(old(self).current_vertex->0),
            final(self).wf(),
    {
        let v = self.current_vertex.unwrap();
        self.vertices.push(v);
        self.current_vertex = None;
    }

    /// Whether every completed vertex has the attributes of the builder's
    /// format.
    pub fn is_well_formed(&self) -> (r: bool)
        ensures
            r == self.wf(),
    {
        let mut i: usize = 0;
        while i < self.vertices.len()
            invariant
                i <= self.vertices@.len(),
                forall|k: int| 0 <= k < i ==> (#[trigger] self.vertices@[k]).fits(self.vertex_format),
            decreases self.vertices@.len() - i,
        {
            if !self.vertices[i].fits_format(&self.vertex_format) {
                return false;
            }
            i = i + 1;
        }
        true
    }

    /// Whether two builders can be drawn in one batch.
    pub fn batches_with(&self, other: &BufferBuilder) -> (r: bool)
        ensures
            r == batch_eq(*self, *other),
    {
        self.vertex_format == other.vertex_format && self.topology == other.topology
            && self.texture == other.texture && self.pipeline == other.pipeline
    }
}

/// The little-endian bytes of `v`.
pub open spec fn le_bytes(v: u32) -> Seq<u8> {
    seq![v as u8, (v >> 8) as u8, (v >> 16) as u8, (v >> 24) as u8]
}

/// The bytes of vertex `v` in `format`: position, then color, then texture
/// coordinate, each component little-endian, skipping what the format does
/// not store.
pub open spec fn spec_vertex_bytes(format: VertexFormat, v: Vertex) -> Seq<u8> {
    let position = le_bytes(v.position.x) + le_bytes(v.position.y);
    let color = if format.spec_has_color() {
        let c = v.color->0;
        le_bytes(c.x) + le_bytes(c.y) + le_bytes(c.z)
    } else {
        Seq::empty()
    };
    let uv = if format.spec_has_uv() {
        let t = v.uv->0;
        le_bytes(t.x) + le_bytes(t.y)
    } else {
        Seq::empty()
    };
    position + color + uv
}

/// The bytes of `vs` in `format`, one vertex after another.
pub open spec fn spec_vertices_bytes(format: VertexFormat, vs: Seq<Vertex>) -> Seq<u8>
    decreases vs.len(),
{
    if vs.len() == 0 {
        Seq::empty()
    } else {
        spec_vertices_bytes(format, vs.drop_last()) + spec_vertex_bytes(format, vs.last())
    }
}

fn push_le(out: &mut Vec<u8>, v: u32)
    ensures
        final(out)@ == old(out)@ + le_bytes(v),
{
    out.push(v as u8);
    out.push((v >> 8) as u8);
    out.push((v >> 16) as u8);
    out.push((v >> 24) as u8);
    assert(final(out)@ =~= old(out)@ + le_bytes(v));
}

impl VertexFormat {
    /// Appends the bytes of `vertex`, which has the attributes of this
    /// format, to `raw_data`.
    pub fn extend_raw_data(&self, raw_data: &mut Vec<u8>, vertex: Vertex)
        requires
            vertex.fits(*self),
        ensures
            final(raw_data)@ == old(raw_data)@ + spec_vertex_bytes(*self, vertex),
            spec_vertex_bytes(*self, vertex).len() == self.spec_vertex_size(),
    {
        let ghost start = raw_data@;
        push_le(raw_data, vertex.position.x);
        push_le(raw_data, vertex.position.y);
        if self.has_color() {
            let c = vertex.color.unwrap();
            push_le(raw_data, c.x);
            push_le(raw_data, c.y);
            push_le(raw_data, c.z);
        }
        if self.has_uv() {
            let t = vertex.uv.unwrap();
            push_le(raw_data, t.x);
            push_le(raw_data, t.y);
        }
        assert(raw_data@ =~= start + spec_vertex_bytes(*self, vertex));
    }

    /// The vertex buffer contents for `vertices`, each of which has the
    /// attributes of this format: their bytes one after another, the
    /// format's vertex size for each.
    pub fn vertex_bytes(&self, vertices: &Vec<Vertex>) -> (r: Vec<u8>)
        requires
            forall|i: int| 0 <= i < vertices@.len() ==> (#[trigger] vertices@[i]).fits(*self),
        ensures
            r@ == spec_vertices_bytes(*self, vertices@),
            r@.len() == vertices@.len() * self.spec_vertex_size(),
    {
        let mut r: Vec<u8> = Vec::new();
        let mut i: usize = 0;
        assert(vertices@.subrange(0, 0) =~= Seq::<Vertex>::empty());
        while i < vertices.len()
            invariant
                i <= vertices@.len(),
                forall|k: int| 0 <= k < vertices@.len() ==> (#[trigger] vertices@[k]).fits(*self),
                r@ == spec_vertices_bytes(*self, vertices@.subrange(0, i as int)),
                r@.len() == i * self.spec_vertex_size(),
            decreases vertices@.len() - i,
        {
            self.extend_raw_data(&mut r, vertices[i]);
            assert(vertices@.subrange(0, i + 1).drop_last() == vertices@.subrange(0, i as int));
            assert(r@.len() == (i + 1) * self.spec_vertex_size()) by (nonlinear_arith)
                requires r@.len() == i * self.spec_vertex_size() + self.spec_vertex_size();
            i = i + 1;
        }
        assert(vertices@.subrange(0, i as int) == vertices@);
        r
    }
}

} // verus!
