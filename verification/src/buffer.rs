//! Buffers as the device is asked to create them: a use and the bytes they
//! are born with.

use vstd::prelude::*;

verus! {

/// What the device will read a buffer for.
#[derive(Clone, Copy, Debug, PartialEq, Eq, Structural)]
pub enum BufferUsage {
    /// Vertex input of a draw call.
    Vertex,
    /// Index input of a draw call.
    Index,
    /// Source of a copy command.
    CopySrc,
}

/// The mathematical content of a [`Buffer`].
pub struct BufferView {
    pub usage: BufferUsage,
    pub contents: Seq<u8>,
}

/// A device buffer that is filled once, when it is created, and only read
/// afterwards.
#[derive(Clone, Debug, PartialEq, Eq)]
pub struct Buffer {
    usage: BufferUsage,
    contents: Vec<u8>,
}

impl View for Buffer {
    type V = BufferView;

    closed spec fn view(&self) -> BufferView {
        BufferView { usage: self.usage, contents: self.contents@ }
    }
}

impl Buffer {
    /// A buffer for the given use, holding a copy of `data`.
    pub fn with_data(data: &[u8], usage: BufferUsage) -> (buffer: Buffer)
        ensures
            buffer@ == (BufferView { usage, contents: data@ }),
    {
        Buffer { usage, contents: copy_bytes(data) }
    }

    /// A buffer for the given use that takes over `data`.
    pub fn from_vec(data: Vec<u8>, usage: BufferUsage) -> (buffer: Buffer)
        ensures
            buffer@ == (BufferView { usage, contents: data@ }),
    {
        Buffer { usage, contents: data }
    }

    /// What the device will read the buffer for.
    pub fn usage(&self) -> (r: BufferUsage)
        ensures
            r == self@.usage,
    {
        self.usage
    }

    /// The bytes the buffer holds.
    pub fn contents(&self) -> (r: &[u8])
        ensures
            r@ == self@.contents,
    {
        self.contents.as_slice()
    }

    /// The size of the buffer in bytes.
    pub fn size(&self) -> (r: usize)
        ensures
            r == self@.contents.len(),
    {
        self.contents.len()
    }
}

/// A fresh vector with the bytes of `data`.
pub fn copy_bytes(data: &[u8]) -> (r: Vec<u8>)
    ensures
        r@ == data@,
{
    let mut copy: Vec<u8> = Vec::with_capacity(data.len());
    let mut i: usize = 0;
    while i < data.len()
        invariant
            i <= data@.len(),
            copy@ == data@.take(i as int),
        decreases data@.len() - i,
    {
        copy.push(data[i]);
        proof {
            assert(data@.take(i as int).push(data@[i as int]) =~= data@.take(i as int + 1));
        }
        i = i + 1;
    }
    proof {
        assert(data@.take(i as int) =~= data@);
    }
    copy
}

} // verus!
