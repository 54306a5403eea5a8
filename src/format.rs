//! Vertex formats and primitive topologies, with the index patterns that a
//! topology contributes per primitive.
use vstd::prelude::*;

verus! {

/// The layout of one vertex in a vertex buffer.
#[derive(Clone, Copy, PartialEq, Eq, Structural, Debug, Hash)]
pub enum VertexFormat {
    /// A 2D position followed by an RGB color.
    PositionColor,
    /// A 2D position followed by a 2D texture coordinate.
    PositionTexCoord,
    /// A 2D position, an RGB color and a 2D texture coordinate.
    PositionTexCoordColor,
}

/// Size in bytes of one 32-bit component.
pub const COMPONENT_SIZE: usize = 4;

impl VertexFormat {
    /// Number of 32-bit components one vertex of this format occupies.
    pub open spec fn spec_components(self) -> nat {
        match self {
            VertexFormat::PositionColor => 2 + 3,
            VertexFormat::PositionTexCoord => 2 + 2,
            VertexFormat::PositionTexCoordColor => 2 + 3 + 2,
        }
    }

    /// Whether vertices of this format carry a color.
    pub open spec fn spec_has_color(self) -> bool {
        self != VertexFormat::PositionTexCoord
    }

    /// Whether vertices of this format carry a texture coordinate.
    pub open spec fn spec_has_uv(self) -> bool {
        self != VertexFormat::PositionColor
    }

    /// Size in bytes of one vertex of this format.
    pub open spec fn spec_vertex_size(self) -> nat {
        self.spec_components() * 4
    }

    /// The byte size of one vertex: 20 for position and color, 16 for
    /// position and texture coordinate, 28 for all three.
    pub fn vertex_size(&self) -> (r: usize)
        ensures
            r == self.spec_vertex_size(),
    {
        match self {
            VertexFormat::PositionColor => COMPONENT_SIZE * 2 + COMPONENT_SIZE * 3,
            VertexFormat::PositionTexCoord => COMPONENT_SIZE * 2 * 2,
            VertexFormat::PositionTexCoordColor => COMPONENT_SIZE * 2 * 2 + COMPONENT_SIZE * 3,
        }
    }

    /// Whether vertices of this format carry a color.
    pub fn has_color(&self) -> (r: bool)
        ensures
            r == self.spec_has_color(),
    {
        !matches!(self, VertexFormat::PositionTexCoord)
    }

    /// Whether vertices of this format carry a texture coordinate.
    pub fn has_uv(&self) -> (r: bool)
        ensures
            r == self.spec_has_uv(),
    {
        !matches!(self, VertexFormat::PositionColor)
    }
}

/// How consecutive vertices form primitives.
#[derive(Clone, Copy, PartialEq, Eq, Structural, Debug, Hash)]
pub enum Topology {
    /// Four vertices per primitive, drawn as two triangles.
    Quad,
    /// Three vertices per primitive.
    Triangle,
}

/// The largest index value an index buffer entry can hold.
pub const MAX_INDEX: u16 = 0xffff;

impl Topology {
    /// Vertices per primitive.
    pub open spec fn spec_vertex_count(self) -> nat {
        match self {
            Topology::Quad => 4,
            Topology::Triangle => 3,
        }
    }

    /// The indices of one primitive, relative to its first vertex. A quad is
    /// split into the triangles (0, 1, 3) and (3, 1, 2).
    pub open spec fn pattern(self) -> Seq<int> {
        match self {
            Topology::Quad => seq![0int, 1, 3, 3, 1, 2],
            Topology::Triangle => seq![0int, 1, 2],
        }
    }

    /// Indices per primitive.
    pub open spec fn spec_index_count(self) -> nat {
        self.pattern().len()
    }

    /// The indices of one primitive whose first vertex is `offset`.
    pub open spec fn spec_indices(self, offset: int) -> Seq<int> {
        self.pattern().map_values(|p: int| offset + p)
    }

    /// The index list for one primitive whose first vertex is `offset`.
    pub fn indices(&self, offset: u16) -> (r: Vec<u16>)
        requires
            offset + self.spec_vertex_count() - 1 <= MAX_INDEX,
        ensures
            r@.map_values(|i: u16| i as int) == self.spec_indices(offset as int),
    {
        let r = match self {
            Topology::Quad => vec![offset, offset + 1, offset + 3, offset + 3, offset + 1, offset + 2],
            Topology::Triangle => vec![offset, offset + 1, offset + 2],
        };
        assert(r@.map_values(|i: u16| i as int) =~= self.spec_indices(offset as int));
        r
    }

    /// Vertices per primitive: four for a quad, three for a triangle.
    pub fn vertex_count(&self) -> (r: usize)
        ensures
            r == self.spec_vertex_count(),
    {
        match self {
            Topology::Quad => 4,
            Topology::Triangle => 3,
        }
    }

    /// Indices per primitive: six for a quad, three for a triangle.
    pub fn index_count(&self) -> (r: usize)
        ensures
            r == self.spec_index_count(),
    {
        match self {
            Topology::Quad => 6,
            Topology::Triangle => 3,
        }
    }
}

} // verus!
