use vstd::prelude::*;

verus! {

/// Size in bytes of one 32-bit float in the GPU vertex stream.
pub const FLOAT_BYTES: u32 = 4;

/// One corner of the full-viewport quad.
///
/// The quad's coordinates are exact small integers (clip-space corners at
/// `-1`/`1`, texture corners at `0`/`1`), so the vertices are stated here as
/// integers; the GPU layer widens them to floats when it fills the vertex
/// buffer, against the layout that `vertex_layout` describes.
#[derive(Clone, Copy, Debug, PartialEq, Eq, Structural)]
pub struct QuadVertex {
    /// Clip-space position.
    pub x: i8,
    pub y: i8,
    pub z: i8,
    /// Texture coordinate.
    pub u: u8,
    pub v: u8,
    /// Fill color behind the page, one channel value for red, green, blue.
    pub shade: u8,
}

/// Byte layout of one vertex as the shader reads it: three position floats,
/// two texture-coordinate floats, three color floats.
#[derive(Clone, Copy, Debug, PartialEq, Eq, Structural)]
pub struct VertexLayout {
    pub stride: u32,
    pub position_offset: u32,
    pub tex_coord_offset: u32,
    pub color_offset: u32,
}

/// The four corners of the full-viewport quad, counter-clockwise from the
/// top-left, each mapping the texture right side up.
pub open spec fn quad_vertices_spec() -> Seq<QuadVertex> {
    seq![
        QuadVertex { x: -1i8, y: 1i8, z: 0i8, u: 0u8, v: 0u8, shade: 255u8 },
        QuadVertex { x: -1i8, y: -1i8, z: 0i8, u: 0u8, v: 1u8, shade: 255u8 },
        QuadVertex { x: 1i8, y: -1i8, z: 0i8, u: 1u8, v: 1u8, shade: 255u8 },
        QuadVertex { x: 1i8, y: 1i8, z: 0i8, u: 1u8, v: 0u8, shade: 255u8 },
    ]
}

/// The two triangles that cover the quad, as indices into `quad_vertices`.
pub open spec fn quad_indices_spec() -> Seq<u16> {
    seq![0u16, 1u16, 3u16, 1u16, 2u16, 3u16]
}

/// The quad's vertices, uploaded once and immutable for the life of the
/// viewer.
pub fn quad_vertices() -> (vs: Vec<QuadVertex>)
    ensures
        vs@ == quad_vertices_spec(),
{
    let mut vs: Vec<QuadVertex> = Vec::new();
    vs.push(QuadVertex { x: -1, y: 1, z: 0, u: 0, v: 0, shade: 255 });
    vs.push(QuadVertex { x: -1, y: -1, z: 0, u: 0, v: 1, shade: 255 });
    vs.push(QuadVertex { x: 1, y: -1, z: 0, u: 1, v: 1, shade: 255 });
    vs.push(QuadVertex { x: 1, y: 1, z: 0, u: 1, v: 0, shade: 255 });
    proof {
        assert(vs@ =~= quad_vertices_spec());
    }
    vs
}

/// The quad's index list: six indices, two triangles, both wound
/// counter-clockwise.
pub fn quad_indices() -> (is: Vec<u16>)
    ensures
        is@ == quad_indices_spec(),
        is@.len() == 6,
{
    let mut is: Vec<u16> = Vec::new();
    is.push(0);
    is.push(1);
    is.push(3);
    is.push(1);
    is.push(2);
    is.push(3);
    proof {
        assert(is@ =~= quad_indices_spec());
    }
    is
}

/// Every index of the quad names one of its four vertices.
pub proof fn lemma_quad_indices_in_range()
    ensures
        forall|i: int| 0 <= i < quad_indices_spec().len() ==> quad_indices_spec()[i] < 4,
{
}

/// The vertex stream layout: position at the start, texture coordinates
/// after the three position floats, color after the five preceding floats.
pub fn vertex_layout() -> (l: VertexLayout)
    ensures
        l.position_offset == 0,
        l.tex_coord_offset == 3 * FLOAT_BYTES,
        l.color_offset == 5 * FLOAT_BYTES,
        l.stride == 8 * FLOAT_BYTES,
{
    VertexLayout {
        stride: 8 * FLOAT_BYTES,
        position_offset: 0,
        tex_coord_offset: 3 * FLOAT_BYTES,
        color_offset: 5 * FLOAT_BYTES,
    }
}

} // verus!
