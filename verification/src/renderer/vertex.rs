use vstd::prelude::*;

verus! {

/// Number of corners of the quad that every sprite is drawn with.
pub const QUAD_VERTEX_COUNT: usize = 4;

/// `VK_FORMAT_R32G32B32_SFLOAT`: three 32-bit floats.
pub const FORMAT_R32G32B32_SFLOAT: i32 = 106;

/// `VK_FORMAT_R32G32_SFLOAT`: two 32-bit floats.
pub const FORMAT_R32G32_SFLOAT: i32 = 103;

/// `VK_VERTEX_INPUT_RATE_VERTEX`.
pub const VERTEX_INPUT_RATE_VERTEX: i32 = 0;

/// Bytes in one component of a vertex attribute (an `f32`).
pub const COMPONENT_SIZE: u32 = 4;

/// Bytes in one vertex: position (3 floats), color (3) and texture
/// coordinates (2), packed in that order.
pub const VERTEX_STRIDE: u32 = 32;

/// How the vertex buffer is bound.
#[derive(Clone, Copy, Debug, PartialEq, Eq, Structural)]
pub struct VertexBinding {
    pub binding: u32,
    pub stride: u32,
    pub input_rate: i32,
}

/// Where one attribute of a vertex lies and how it is read.
#[derive(Clone, Copy, Debug, PartialEq, Eq, Structural)]
pub struct VertexAttribute {
    pub binding: u32,
    pub location: u32,
    pub format: i32,
    pub offset: u32,
}

/// Bytes taken by an attribute of the given format.
pub open spec fn format_size(format: i32) -> int {
    if format == FORMAT_R32G32B32_SFLOAT {
        3 * COMPONENT_SIZE
    } else if format == FORMAT_R32G32_SFLOAT {
        2 * COMPONENT_SIZE
    } else {
        0
    }
}

/// The single binding of the vertex buffer: binding 0, one vertex after the
/// other.
pub fn vertex_binding_description() -> (binding: VertexBinding)
    ensures
        binding == (VertexBinding {
            binding: 0,
            stride: VERTEX_STRIDE,
            input_rate: VERTEX_INPUT_RATE_VERTEX,
        }),
{
    VertexBinding { binding: 0, stride: VERTEX_STRIDE, input_rate: VERTEX_INPUT_RATE_VERTEX }
}

/// The attributes of a vertex as the vertex shader reads them.
pub open spec fn vertex_attributes_spec() -> Seq<VertexAttribute> {
    seq![
        VertexAttribute { binding: 0, location: 0, format: FORMAT_R32G32B32_SFLOAT, offset: 0 },
        VertexAttribute { binding: 0, location: 1, format: FORMAT_R32G32B32_SFLOAT, offset: 12 },
        VertexAttribute { binding: 0, location: 2, format: FORMAT_R32G32_SFLOAT, offset: 24 },
    ]
}

/// Position at location 0, color at location 1 (after the position) and
/// texture coordinates at location 2 (after the color).
pub fn vertex_attribute_descriptions() -> (attributes: Vec<VertexAttribute>)
    ensures
        attributes@ == vertex_attributes_spec(),
{
    let position_size = 3 * COMPONENT_SIZE;
    vec![
        VertexAttribute {
            binding: 0,
            location: 0,
            format: FORMAT_R32G32B32_SFLOAT,
            offset: 0,
        },
        VertexAttribute {
            binding: 0,
            location: 1,
            format: FORMAT_R32G32B32_SFLOAT,
            offset: position_size,
        },
        VertexAttribute {
            binding: 0,
            location: 2,
            format: FORMAT_R32G32_SFLOAT,
            offset: position_size * 2,
        },
    ]
}

/// Law of the vertex layout: the attributes come one after the other
/// without gap or overlap, each at its own location, and together they fill
/// exactly one stride.
pub proof fn law_vertex_layout_packed()
    ensures
        vertex_attributes_spec()[0].offset == 0,
        forall|i: int|
            0 <= i < vertex_attributes_spec().len() - 1 ==> #[trigger] vertex_attributes_spec()[i
                + 1].offset == vertex_attributes_spec()[i].offset + format_size(
                vertex_attributes_spec()[i].format,
            ),
        forall|i: int|
            0 <= i < vertex_attributes_spec().len() ==> #[trigger] vertex_attributes_spec()[i].location
                == i && vertex_attributes_spec()[i].binding == 0,
        vertex_attributes_spec()[2].offset + format_size(vertex_attributes_spec()[2].format)
            == VERTEX_STRIDE,
{
    let a = vertex_attributes_spec();
    assert forall|i: int| 0 <= i < a.len() - 1 implies #[trigger] a[i + 1].offset == a[i].offset
        + format_size(a[i].format) by {
        if i == 0 {
        } else {
            assert(i == 1);
        }
    }
    assert forall|i: int| 0 <= i < a.len() implies #[trigger] a[i].location == i && a[i].binding
        == 0 by {
        if i == 0 {
        } else if i == 1 {
        } else {
            assert(i == 2);
        }
    }
}

/// The six indices of the two triangles that make up the sprite quad.
pub open spec fn quad_indices_spec() -> Seq<u16> {
    seq![0u16, 1u16, 2u16, 2u16, 3u16, 0u16]
}

/// Indices of the quad: two triangles, (0, 1, 2) and (2, 3, 0).
pub fn create_quad_indices() -> (indices: Vec<u16>)
    ensures
        indices@ == quad_indices_spec(),
        indices@.len() == 6,
        forall|i: int| 0 <= i < indices@.len() ==> (#[trigger] indices@[i]) < QUAD_VERTEX_COUNT,
{
    let indices = vec![0, 1, 2, 2, 3, 0];
    assert(indices@ == quad_indices_spec());
    indices
}

} // verus!
