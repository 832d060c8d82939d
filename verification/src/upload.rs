//! The resource uploader: geometry and textures on their way to device
//! memory.

use vstd::prelude::*;

use crate::buffer::{Buffer, BufferUsage, BufferView};
use crate::error::RenderError;
use crate::texture::{texture_from_bytes, upload_result_is, Texture, TextureUpload};

verus! {

/// The bytes of 16-bit indices stored least significant byte first.
pub open spec fn index_bytes_le(indices: Seq<u16>) -> Seq<u8> {
    Seq::new(
        2 * indices.len(),
        |i: int|
            if i % 2 == 0 {
                (indices[i / 2] % 0x100) as u8
            } else {
                (indices[i / 2] / 0x100) as u8
            },
    )
}

/// The bytes of 16-bit indices stored most significant byte first.
pub open spec fn index_bytes_be(indices: Seq<u16>) -> Seq<u8> {
    Seq::new(
        2 * indices.len(),
        |i: int|
            if i % 2 == 0 {
                (indices[i / 2] / 0x100) as u8
            } else {
                (indices[i / 2] % 0x100) as u8
            },
    )
}

/// The bytes are the indices as they lie in memory, in one of the two byte
/// orders a machine can have.
pub open spec fn is_index_memory(bytes: Seq<u8>, indices: Seq<u16>) -> bool {
    bytes == index_bytes_le(indices) || bytes == index_bytes_be(indices)
}

/// The indices read back from bytes stored least significant byte first.
pub open spec fn indices_from_le(bytes: Seq<u8>) -> Seq<u16> {
    Seq::new(
        (bytes.len() / 2) as nat,
        |i: int| (bytes[2 * i] as int + 0x100 * (bytes[2 * i + 1] as int)) as u16,
    )
}

/// The indices read back from bytes stored most significant byte first.
pub open spec fn indices_from_be(bytes: Seq<u8>) -> Seq<u16> {
    Seq::new(
        (bytes.len() / 2) as nat,
        |i: int| (0x100 * (bytes[2 * i] as int) + bytes[2 * i + 1] as int) as u16,
    )
}

/// The indices as bytes, the way they lie in this machine's memory.
///
/// Calls `bytemuck::cast_slice` from `u16` to `u8` and copies the result.
/// Trusted: the cast reinterprets the same memory, so there are two bytes
/// for each index, in the byte order of the machine.
#[verifier::external_body]
fn index_memory(indices: &[u16]) -> (r: Vec<u8>)
    ensures
        is_index_memory(r@, indices@),
{
    bytemuck::cast_slice::<u16, u8>(indices).to_vec()
}

/// A vertex buffer born with exactly the given bytes.
pub fn upload_vertices(vertex_data: &[u8]) -> (buffer: Buffer)
    ensures
        buffer@ == (BufferView { usage: BufferUsage::Vertex, contents: vertex_data@ }),
{
    Buffer::with_data(vertex_data, BufferUsage::Vertex)
}

/// An index buffer born with the given indices as they lie in memory.
pub fn upload_indices(indices: &[u16]) -> (buffer: Buffer)
    ensures
        buffer@.usage == BufferUsage::Index,
        is_index_memory(buffer@.contents, indices@),
        buffer@.contents.len() == 2 * indices@.len(),
{
    Buffer::from_vec(index_memory(indices), BufferUsage::Index)
}

/// Decodes an image file and describes the texture that shows it, with the
/// copy command the caller has to submit before the texture is used.
pub fn upload_texture(image_bytes: &[u8]) -> (r: Result<(Texture, TextureUpload), RenderError>)
    ensures
        upload_result_is(r, texture_from_bytes(image_bytes@)),
{
    Texture::from_bytes(image_bytes)
}

/// The mathematical content of a [`Geometry`].
pub struct GeometryView {
    pub vertex_buffer: BufferView,
    pub index_buffer: BufferView,
    pub num_indices: u32,
}

/// The buffers of one mesh and the number of indices a draw call covers.
#[derive(Clone, Debug, PartialEq, Eq)]
pub struct Geometry {
    vertex_buffer: Buffer,
    index_buffer: Buffer,
    num_indices: u32,
}

impl View for Geometry {
    type V = GeometryView;

    closed spec fn view(&self) -> GeometryView {
        GeometryView {
            vertex_buffer: self.vertex_buffer@,
            index_buffer: self.index_buffer@,
            num_indices: self.num_indices,
        }
    }
}

/// The geometry holds these vertex bytes and these indices.
pub open spec fn holds_mesh(g: GeometryView, vertex_data: Seq<u8>, indices: Seq<u16>) -> bool {
    &&& g.vertex_buffer == (BufferView { usage: BufferUsage::Vertex, contents: vertex_data })
    &&& g.index_buffer.usage == BufferUsage::Index
    &&& is_index_memory(g.index_buffer.contents, indices)
    &&& g.num_indices == indices.len()
}

impl Geometry {
    /// Uploads a mesh.  There is no geometry when the indices are more than
    /// one draw call can count.
    pub fn new(vertex_data: &[u8], indices: &[u16]) -> (r: Option<Geometry>)
        ensures
            r is Some <==> indices@.len() <= u32::MAX,
            r matches Some(geometry) ==> holds_mesh(geometry@, vertex_data@, indices@),
    {
        if indices.len() > u32::MAX as usize {
            None
        } else {
            Some(
                Geometry {
                    vertex_buffer: upload_vertices(vertex_data),
                    index_buffer: upload_indices(indices),
                    num_indices: indices.len() as u32,
                },
            )
        }
    }

    /// The vertex buffer.
    pub fn vertex_buffer(&self) -> (r: &Buffer)
        ensures
            r@ == self@.vertex_buffer,
    {
        &self.vertex_buffer
    }

    /// The index buffer.
    pub fn index_buffer(&self) -> (r: &Buffer)
        ensures
            r@ == self@.index_buffer,
    {
        &self.index_buffer
    }

    /// The number of indices a draw call covers.
    pub fn num_indices(&self) -> (r: u32)
        ensures
            r == self@.num_indices,
    {
        self.num_indices
    }
}

/// Indices written to memory and read back in the same byte order are the
/// indices that were written.
pub proof fn lemma_index_bytes_round_trip(indices: Seq<u16>)
    ensures
        indices_from_le(index_bytes_le(indices)) == indices,
        indices_from_be(index_bytes_be(indices)) == indices,
        index_bytes_le(indices).len() == 2 * indices.len(),
        index_bytes_be(indices).len() == 2 * indices.len(),
{
    let le = index_bytes_le(indices);
    let be = index_bytes_be(indices);
    assert forall|i: int| 0 <= i < indices.len() implies #[trigger] indices_from_le(le)[i]
        == indices[i] by {
        assert((2 * i) % 2 == 0 && (2 * i) / 2 == i);
        assert((2 * i + 1) % 2 == 1 && (2 * i + 1) / 2 == i);
        assert(le[2 * i] == (indices[i] % 0x100) as u8);
        assert(le[2 * i + 1] == (indices[i] / 0x100) as u8);
    }
    assert forall|i: int| 0 <= i < indices.len() implies #[trigger] indices_from_be(be)[i]
        == indices[i] by {
        assert((2 * i) % 2 == 0 && (2 * i) / 2 == i);
        assert((2 * i + 1) % 2 == 1 && (2 * i + 1) / 2 == i);
        assert(be[2 * i] == (indices[i] / 0x100) as u8);
        assert(be[2 * i + 1] == (indices[i] % 0x100) as u8);
    }
    assert(indices_from_le(le) =~= indices);
    assert(indices_from_be(be) =~= indices);
}

} // verus!
