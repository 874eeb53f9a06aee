//! How the bytes of the vertex buffers are laid out for the shader: a corner
//! is a position of three 32-bit floats and a colour of four, and an instance
//! is an offset of three.

use vstd::prelude::*;

verus! {

/// Size of one 32-bit float, in bytes.
pub const FLOAT_BYTES: u64 = 4;

/// The type of one attribute of a vertex.
#[derive(Clone, Copy, Debug, PartialEq, Eq, Structural)]
pub enum VertexFormat {
    /// Three 32-bit floats.
    Float32x3,
    /// Four 32-bit floats.
    Float32x4,
}

/// Whether a buffer advances per vertex or per instance.
#[derive(Clone, Copy, Debug, PartialEq, Eq, Structural)]
pub enum InputStepMode {
    Vertex,
    Instance,
}

/// One input of the vertex shader and where its bytes lie in an item.
#[derive(Clone, Copy, Debug, PartialEq, Eq, Structural)]
pub struct VertexAttribute {
    pub format: VertexFormat,
    pub offset: u64,
    pub shader_location: u32,
}

/// The layout of one vertex buffer.
#[derive(Debug)]
pub struct VertexBufferLayout {
    /// Distance between two items, in bytes.
    pub array_stride: u64,
    pub step_mode: InputStepMode,
    pub attributes: Vec<VertexAttribute>,
}

/// Number of floats in an attribute.
pub open spec fn components(format: VertexFormat) -> int {
    match format {
        VertexFormat::Float32x3 => 3,
        VertexFormat::Float32x4 => 4,
    }
}

/// Size of an attribute, in bytes.
pub open spec fn byte_size(format: VertexFormat) -> int {
    components(format) * FLOAT_BYTES
}

/// Size of the first `n` attributes together, in bytes.
pub open spec fn bytes_before(attributes: Seq<VertexAttribute>, n: int) -> int
    decreases n,
{
    if n <= 0 {
        0
    } else {
        bytes_before(attributes, n - 1) + byte_size(attributes[n - 1].format)
    }
}

/// Whether the attributes follow each other without a gap, from the start
/// of an item to its end, with shader locations that count up from
/// `first_location`.
pub open spec fn packed(
    array_stride: int,
    attributes: Seq<VertexAttribute>,
    first_location: int,
) -> bool {
    &&& forall|i: int|
        0 <= i < attributes.len() ==> (#[trigger] attributes[i]).offset == bytes_before(
            attributes,
            i,
        )
    &&& forall|i: int|
        0 <= i < attributes.len() ==> (#[trigger] attributes[i]).shader_location == first_location
            + i
    &&& array_stride == bytes_before(attributes, attributes.len() as int)
}

/// The attributes of a corner: its position at shader location 0, then its
/// colour at location 1.
pub open spec fn corner_attributes() -> Seq<VertexAttribute> {
    seq![
        VertexAttribute { format: VertexFormat::Float32x3, offset: 0, shader_location: 0 },
        VertexAttribute { format: VertexFormat::Float32x4, offset: 12, shader_location: 1 },
    ]
}

/// The attribute of an instance: its offset, at shader location 2.
pub open spec fn instance_attributes() -> Seq<VertexAttribute> {
    seq![VertexAttribute { format: VertexFormat::Float32x3, offset: 0, shader_location: 2 }]
}

impl VertexFormat {
    /// Size of an attribute of this type, in bytes.
    pub fn size(self) -> (r: u64)
        ensures
            r == byte_size(self),
    {
        match self {
            VertexFormat::Float32x3 => 3 * FLOAT_BYTES,
            VertexFormat::Float32x4 => 4 * FLOAT_BYTES,
        }
    }
}

/// The layout of the buffers that hold the corners of a shape.
pub fn vertex_layout() -> (r: VertexBufferLayout)
    ensures
        r.array_stride == 28,
        r.step_mode == InputStepMode::Vertex,
        r.attributes@ == corner_attributes(),
        packed(r.array_stride as int, r.attributes@, 0),
{
    let position: VertexFormat = VertexFormat::Float32x3;
    let color: VertexFormat = VertexFormat::Float32x4;
    let mut attributes: Vec<VertexAttribute> = Vec::new();
    attributes.push(VertexAttribute { format: position, offset: 0, shader_location: 0 });
    attributes.push(
        VertexAttribute { format: color, offset: position.size(), shader_location: 1 },
    );
    proof {
        assert(attributes@ =~= corner_attributes());
        lemma_layouts_are_packed();
    }
    VertexBufferLayout {
        array_stride: position.size() + color.size(),
        step_mode: InputStepMode::Vertex,
        attributes,
    }
}

/// The layout of the buffers that hold where each instance of a shape
/// stands.
pub fn instance_layout() -> (r: VertexBufferLayout)
    ensures
        r.array_stride == 12,
        r.step_mode == InputStepMode::Instance,
        r.attributes@ == instance_attributes(),
        packed(r.array_stride as int, r.attributes@, 2),
{
    let offset: VertexFormat = VertexFormat::Float32x3;
    let mut attributes: Vec<VertexAttribute> = Vec::new();
    attributes.push(VertexAttribute { format: offset, offset: 0, shader_location: 2 });
    proof {
        assert(attributes@ =~= instance_attributes());
        lemma_layouts_are_packed();
    }
    VertexBufferLayout {
        array_stride: offset.size(),
        step_mode: InputStepMode::Instance,
        attributes,
    }
}

/// In both layouts the attributes fill an item without a gap, and the
/// shader locations of the two layouts together are 0, 1 and 2.
pub proof fn lemma_layouts_are_packed()
    ensures
        packed(28, corner_attributes(), 0),
        packed(12, instance_attributes(), corner_attributes().len() as int),
{
    reveal_with_fuel(bytes_before, 3);
}

} // verus!
