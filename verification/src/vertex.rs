//! Vertex layouts: how the fields of one vertex lie in the vertex buffer and
//! at which shader locations they arrive.

use vstd::prelude::*;

verus! {

/// The shape of one vertex attribute: one to four 32-bit floats.
#[derive(Clone, Copy, Debug, PartialEq, Eq, Structural)]
pub enum VertexFormat {
    Float,
    Float2,
    Float3,
    Float4,
}

impl VertexFormat {
    /// Bytes taken by one attribute of this format.
    pub open spec fn size(self) -> nat {
        match self {
            VertexFormat::Float => 4,
            VertexFormat::Float2 => 8,
            VertexFormat::Float3 => 12,
            VertexFormat::Float4 => 16,
        }
    }

    /// Bytes taken by one attribute of this format.
    pub fn byte_size(self) -> (r: u64)
        ensures
            r == self.size(),
    {
        match self {
            VertexFormat::Float => 4,
            VertexFormat::Float2 => 8,
            VertexFormat::Float3 => 12,
            VertexFormat::Float4 => 16,
        }
    }
}

/// How often the vertex buffer moves on to its next element.
#[derive(Clone, Copy, Debug, PartialEq, Eq, Structural)]
pub enum InputStepMode {
    Vertex,
    Instance,
}

/// One field of a vertex, as the pipeline reads it.
#[derive(Clone, Copy, Debug, PartialEq, Eq, Structural)]
pub struct VertexAttribute {
    /// Where the field starts within one vertex, in bytes.
    pub offset: u64,
    /// The input location of the vertex stage that receives the field.
    pub shader_location: u32,
    pub format: VertexFormat,
}

/// The layout of one vertex buffer.
#[derive(Clone, Debug, PartialEq, Eq)]
pub struct VertexLayout {
    /// Bytes from one vertex to the next.
    pub stride: u64,
    pub step_mode: InputStepMode,
    pub attributes: Vec<VertexAttribute>,
}

/// Bytes taken by fields of the given formats laid end to end.
pub open spec fn packed_size(formats: Seq<VertexFormat>) -> nat
    decreases formats.len(),
{
    if formats.len() == 0 {
        0
    } else {
        packed_size(formats.drop_last()) + formats.last().size()
    }
}

/// The attribute for field `i` of a vertex whose fields lie end to end: it
/// starts where the fields before it end and arrives at location `i`.
pub open spec fn packed_attribute(formats: Seq<VertexFormat>, i: int) -> VertexAttribute {
    VertexAttribute {
        offset: packed_size(formats.take(i)) as u64,
        shader_location: i as u32,
        format: formats[i],
    }
}

/// No field takes more than sixteen bytes.
pub proof fn lemma_packed_size_bound(formats: Seq<VertexFormat>)
    ensures
        packed_size(formats) <= 16 * formats.len(),
    decreases formats.len(),
{
    if formats.len() > 0 {
        lemma_packed_size_bound(formats.drop_last());
    }
}

/// Taking one more field adds that field's size.
pub proof fn lemma_packed_size_step(formats: Seq<VertexFormat>, i: int)
    requires
        0 <= i < formats.len(),
    ensures
        packed_size(formats.take(i + 1)) == packed_size(formats.take(i)) + formats[i].size(),
{
    assert(formats.take(i + 1).drop_last() =~= formats.take(i));
}

/// A longer prefix of the fields is never smaller than a shorter one.
pub proof fn lemma_packed_size_monotonic(formats: Seq<VertexFormat>, i: int, j: int)
    requires
        0 <= i <= j <= formats.len(),
    ensures
        packed_size(formats.take(i)) <= packed_size(formats.take(j)),
    decreases j - i,
{
    if i < j {
        lemma_packed_size_monotonic(formats, i, j - 1);
        lemma_packed_size_step(formats, j - 1);
    }
}

/// Lays out fields that are few enough to number with shader locations.
fn pack(formats: &[VertexFormat]) -> (layout: VertexLayout)
    requires
        formats@.len() <= u32::MAX,
    ensures
        layout.is_packed(formats@),
{
    let mut attributes: Vec<VertexAttribute> = Vec::new();
    let mut offset: u64 = 0;
    let mut location: u32 = 0;
    let mut i: usize = 0;
    while i < formats.len()
        invariant
            i <= formats@.len() <= u32::MAX,
            location == i,
            offset == packed_size(formats@.take(i as int)),
            attributes@.len() == i,
            forall|k: int|
                0 <= k < i ==> #[trigger] attributes@[k] == packed_attribute(formats@, k),
        decreases formats@.len() - i,
    {
        proof {
            lemma_packed_size_step(formats@, i as int);
            lemma_packed_size_bound(formats@.take(i as int + 1));
        }
        attributes.push(VertexAttribute { offset, shader_location: location, format: formats[i] });
        offset = offset + formats[i].byte_size();
        location = location + 1;
        i = i + 1;
    }
    proof {
        assert(formats@.take(i as int) =~= formats@);
    }
    VertexLayout { stride: offset, step_mode: InputStepMode::Vertex, attributes }
}

impl VertexLayout {
    /// The layout holds the fields of `formats` end to end, in order, at
    /// locations counted from zero, and steps once per vertex.
    pub open spec fn is_packed(self, formats: Seq<VertexFormat>) -> bool {
        &&& self.step_mode == InputStepMode::Vertex
        &&& self.stride == packed_size(formats)
        &&& self.attributes@.len() == formats.len()
        &&& forall|i: int|
            0 <= i < formats.len() ==> #[trigger] self.attributes@[i] == packed_attribute(
                formats,
                i,
            )
    }

    /// The layout feeds exactly the inputs a vertex stage declares: one
    /// attribute per input, at the input's location, in the input's format.
    pub open spec fn supplies(self, inputs: Seq<VertexFormat>) -> bool {
        &&& self.attributes@.len() == inputs.len()
        &&& forall|i: int|
            0 <= i < inputs.len() ==> (#[trigger] self.attributes@[i]).shader_location == i
                && self.attributes@[i].format == inputs[i]
    }

    /// Lays the fields of one vertex end to end.
    ///
    /// Each offset is the sum of the sizes of the fields before it, the
    /// locations run from zero upwards, and the stride is the size of all
    /// fields together.  There is no layout when the fields outnumber the
    /// shader locations.
    pub fn packed(formats: &[VertexFormat]) -> (r: Option<VertexLayout>)
        ensures
            r is Some <==> formats@.len() <= u32::MAX,
            r matches Some(layout) ==> layout.is_packed(formats@),
    {
        if formats.len() > u32::MAX as usize {
            None
        } else {
            Some(pack(formats))
        }
    }

    /// Checks the layout against the inputs a vertex stage declares.
    pub fn matches_inputs(&self, inputs: &[VertexFormat]) -> (r: bool)
        ensures
            r == self.supplies(inputs@),
    {
        if self.attributes.len() != inputs.len() {
            return false;
        }
        let mut i: usize = 0;
        while i < inputs.len()
            invariant
                i <= inputs@.len(),
                self.attributes@.len() == inputs@.len(),
                forall|k: int|
                    0 <= k < i ==> (#[trigger] self.attributes@[k]).shader_location == k
                        && self.attributes@[k].format == inputs@[k],
            decreases inputs@.len() - i,
        {
            let attribute = self.attributes[i];
            if attribute.shader_location as usize != i || attribute.format != inputs[i] {
                return false;
            }
            i = i + 1;
        }
        true
    }
}

/// In a packed layout every field ends before the next one starts and
/// before the vertex ends: no two attributes overlap.
pub proof fn lemma_packed_fields_disjoint(
    layout: VertexLayout,
    formats: Seq<VertexFormat>,
    i: int,
    j: int,
)
    requires
        layout.is_packed(formats),
        formats.len() <= u32::MAX,
        0 <= i < j < formats.len(),
    ensures
        layout.attributes@[i].offset + layout.attributes@[i].format.size()
            <= layout.attributes@[j].offset,
        layout.attributes@[j].offset + layout.attributes@[j].format.size() <= layout.stride,
{
    lemma_packed_size_step(formats, i);
    lemma_packed_size_monotonic(formats, i + 1, j);
    lemma_packed_size_step(formats, j);
    lemma_packed_size_monotonic(formats, j + 1, formats.len() as int);
    assert(formats.take(formats.len() as int) =~= formats);
    lemma_packed_size_bound(formats.take(i));
    lemma_packed_size_bound(formats.take(j));
    assert(layout.attributes@[i] == packed_attribute(formats, i));
    assert(layout.attributes@[j] == packed_attribute(formats, j));
}

/// A packed layout feeds a vertex stage whose inputs are the packed fields,
/// and no stage with another number of inputs.
pub proof fn lemma_packed_supplies(
    layout: VertexLayout,
    formats: Seq<VertexFormat>,
    inputs: Seq<VertexFormat>,
)
    requires
        layout.is_packed(formats),
        formats.len() <= u32::MAX,
    ensures
        layout.supplies(formats),
        inputs.len() != formats.len() ==> !layout.supplies(inputs),
        layout.supplies(inputs) <==> inputs == formats,
{
    assert forall|i: int| 0 <= i < formats.len() implies (#[trigger] layout.attributes@[i]).shader_location
        == i && layout.attributes@[i].format == formats[i] by {
        assert(layout.attributes@[i] == packed_attribute(formats, i));
    }
    if layout.supplies(inputs) {
        assert forall|i: int| 0 <= i < inputs.len() implies inputs[i] == formats[i] by {
            assert(layout.attributes@[i].format == inputs[i]);
        }
        assert(inputs =~= formats);
    }
}

/// The three kinds of scene the renderer draws.
#[derive(Clone, Copy, Debug, PartialEq, Eq, Structural)]
pub enum PipelineVariant {
    /// Positions only.
    Minimal,
    /// A position and a colour per vertex.
    Colored,
    /// A position and a texture coordinate per vertex, with a texture bound.
    Textured,
}

impl PipelineVariant {
    /// The fields of one vertex, in the order the vertex stage reads them.
    pub open spec fn formats(self) -> Seq<VertexFormat> {
        match self {
            PipelineVariant::Minimal => seq![VertexFormat::Float3],
            PipelineVariant::Colored => seq![VertexFormat::Float3, VertexFormat::Float3],
            PipelineVariant::Textured => seq![VertexFormat::Float3, VertexFormat::Float2],
        }
    }

    /// Whether frames of this variant bind a texture and its sampler.
    pub open spec fn textured(self) -> bool {
        self == PipelineVariant::Textured
    }

    /// The fields of one vertex, in the order the vertex stage reads them.
    pub fn vertex_formats(self) -> (r: Vec<VertexFormat>)
        ensures
            r@ == self.formats(),
    {
        let mut formats: Vec<VertexFormat> = Vec::new();
        formats.push(VertexFormat::Float3);
        match self {
            PipelineVariant::Minimal => {},
            PipelineVariant::Colored => {
                formats.push(VertexFormat::Float3);
            },
            PipelineVariant::Textured => {
                formats.push(VertexFormat::Float2);
            },
        }
        assert(formats@ =~= self.formats());
        formats
    }

    /// Whether frames of this variant bind a texture and its sampler.
    pub fn uses_texture(self) -> (r: bool)
        ensures
            r == self.textured(),
    {
        match self {
            PipelineVariant::Textured => true,
            _ => false,
        }
    }

    /// The vertex buffer layout of this variant: its fields end to end.
    pub fn descriptor(self) -> (r: VertexLayout)
        ensures
            r.is_packed(self.formats()),
            r.supplies(self.formats()),
    {
        let formats = self.vertex_formats();
        let layout = pack(formats.as_slice());
        proof {
            lemma_packed_supplies(layout, self.formats(), self.formats());
        }
        layout
    }
}

} // verus!
