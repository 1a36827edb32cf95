use vstd::prelude::*;
use crate::instance::InstanceTileRaw;
use crate::mesh::Vertex;

verus! {

/// The format of one vertex attribute as the shaders read it.
#[derive(Clone, Copy, Debug, PartialEq, Eq, Structural)]
pub enum VertexFormat {
    Float32x2,
    Float32x3,
    Float32x4,
}

/// The bytes that an attribute of format `f` takes.
pub open spec fn format_size(f: VertexFormat) -> nat {
    match f {
        VertexFormat::Float32x2 => 8,
        VertexFormat::Float32x3 => 12,
        VertexFormat::Float32x4 => 16,
    }
}

impl VertexFormat {
    /// The bytes that an attribute of this format takes.
    pub fn size(&self) -> (n: u64)
        ensures
            n == format_size(*self),
    {
        match self {
            VertexFormat::Float32x2 => 8,
            VertexFormat::Float32x3 => 12,
            VertexFormat::Float32x4 => 16,
        }
    }
}

/// One attribute of a vertex buffer: where it starts in an element, the
/// shader input it feeds, and its format.
#[derive(Clone, Copy, Debug, PartialEq, Eq, Structural)]
pub struct VertexAttribute {
    pub offset: u64,
    pub shader_location: u32,
    pub format: VertexFormat,
}

/// Whether a buffer advances once per vertex or once per instance.
#[derive(Clone, Copy, Debug, PartialEq, Eq, Structural)]
pub enum StepMode {
    Vertex,
    Instance,
}

/// How the elements of a vertex buffer are laid out.
pub struct VertexBufferLayout {
    pub array_stride: u64,
    pub step_mode: StepMode,
    pub attributes: Vec<VertexAttribute>,
}

/// Each attribute starts where the one before it ends, the first at offset 0.
pub open spec fn packed(attrs: Seq<VertexAttribute>) -> bool {
    &&& attrs.len() > 0 ==> attrs[0].offset == 0
    &&& forall|i: int| 0 < i < attrs.len() ==> #[trigger] attrs[i].offset == attrs[i - 1].offset + format_size(attrs[i - 1].format)
}

/// The attributes of a quad corner: position at location 0, texture
/// coordinates at location 1.
pub open spec fn vertex_attributes() -> Seq<VertexAttribute> {
    seq![
        VertexAttribute { offset: 0, shader_location: 0, format: VertexFormat::Float32x3 },
        VertexAttribute { offset: 12, shader_location: 1, format: VertexFormat::Float32x2 },
    ]
}

/// The attributes of a tile instance: the UV rectangle at location 3, the
/// four columns of the model matrix at locations 4 to 7, the tint at 8.
pub open spec fn instance_attributes() -> Seq<VertexAttribute> {
    seq![
        VertexAttribute { offset: 0, shader_location: 3, format: VertexFormat::Float32x4 },
        VertexAttribute { offset: 16, shader_location: 4, format: VertexFormat::Float32x4 },
        VertexAttribute { offset: 32, shader_location: 5, format: VertexFormat::Float32x4 },
        VertexAttribute { offset: 48, shader_location: 6, format: VertexFormat::Float32x4 },
        VertexAttribute { offset: 64, shader_location: 7, format: VertexFormat::Float32x4 },
        VertexAttribute { offset: 80, shader_location: 8, format: VertexFormat::Float32x3 },
    ]
}

impl Vertex {
    /// The layout of a corner in single precision: three floats of position
    /// and two of texture coordinates, 20 bytes, one element per vertex. The
    /// attributes fill the element exactly.
    pub fn desc() -> (l: VertexBufferLayout)
        ensures
            l.array_stride == 20,
            l.step_mode == StepMode::Vertex,
            l.attributes@ == vertex_attributes(),
            packed(l.attributes@),
            l.attributes@.last().offset + format_size(l.attributes@.last().format) == l.array_stride,
    {
        let attributes = vec![
            VertexAttribute { offset: 0, shader_location: 0, format: VertexFormat::Float32x3 },
            VertexAttribute { offset: 12, shader_location: 1, format: VertexFormat::Float32x2 },
        ];
        assert(attributes@ == vertex_attributes());
        VertexBufferLayout { array_stride: 20, step_mode: StepMode::Vertex, attributes }
    }
}

impl InstanceTileRaw {
    /// The layout of a record in single precision: four floats of UV
    /// rectangle, sixteen of model matrix and three of tint, 92 bytes, one
    /// element per instance. The attributes fill the element exactly.
    pub fn desc() -> (l: VertexBufferLayout)
        ensures
            l.array_stride == 92,
            l.step_mode == StepMode::Instance,
            l.attributes@ == instance_attributes(),
            packed(l.attributes@),
            l.attributes@.last().offset + format_size(l.attributes@.last().format) == l.array_stride,
    {
        let mut attributes: Vec<VertexAttribute> = Vec::new();
        let mut offset: u64 = 0;
        let mut location: u32 = 3;
        while location < 8
            invariant
                3 <= location <= 8,
                attributes@.len() == location - 3,
                offset == 16 * (location - 3),
                forall|i: int| 0 <= i < attributes@.len() ==> attributes@[i] == instance_attributes()[i],
            decreases 8 - location,
        {
            attributes.push(VertexAttribute { offset, shader_location: location, format: VertexFormat::Float32x4 });
            offset = offset + VertexFormat::Float32x4.size();
            location = location + 1;
        }
        attributes.push(VertexAttribute { offset, shader_location: location, format: VertexFormat::Float32x3 });
        assert(attributes@ == instance_attributes());
        VertexBufferLayout { array_stride: 92, step_mode: StepMode::Instance, attributes }
    }
}

} // verus!
