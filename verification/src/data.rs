//! One block of a buffer and the chunk that says which part of it is valid.

use vstd::prelude::*;

verus! {

/// The valid part of a block.
#[derive(Clone, Copy, Debug, PartialEq, Eq, Structural)]
pub struct Chunk {
    offset: u32,
    size: u32,
    stride: i32,
}

impl Chunk {
    /// A chunk of `size` bytes at `offset`, with `stride` bytes to a line.
    pub fn new(offset: u32, size: u32, stride: i32) -> (chunk: Chunk)
        ensures
            chunk.offset() == offset,
            chunk.size() == size,
            chunk.stride() == stride,
    {
        Chunk { offset, size, stride }
    }

    /// Where the valid part starts.
    pub closed spec fn offset(&self) -> u32 {
        self.offset
    }

    /// How many bytes are valid.
    pub closed spec fn size(&self) -> u32 {
        self.size
    }

    /// The bytes to a line.
    pub closed spec fn stride(&self) -> i32 {
        self.stride
    }

    /// The size, to read and to set. Nothing else of the chunk changes.
    pub fn size_mut(&mut self) -> (size: &mut u32)
        ensures
            *size == old(self).size(),
            final(self).size() == *final(size),
            final(self).offset() == old(self).offset(),
            final(self).stride() == old(self).stride(),
    {
        &mut self.size
    }

    /// The offset, to read and to set. Nothing else of the chunk changes.
    pub fn offset_mut(&mut self) -> (offset: &mut u32)
        ensures
            *offset == old(self).offset(),
            final(self).offset() == *final(offset),
            final(self).size() == old(self).size(),
            final(self).stride() == old(self).stride(),
    {
        &mut self.offset
    }

    /// The stride, to read and to set. Nothing else of the chunk changes.
    pub fn stride_mut(&mut self) -> (stride: &mut i32)
        ensures
            *stride == old(self).stride(),
            final(self).stride() == *final(stride),
            final(self).size() == old(self).size(),
            final(self).offset() == old(self).offset(),
    {
        &mut self.stride
    }
}

/// The fields of a block as contracts see them.
pub struct DataView {
    pub type_: u32,
    pub flags: u32,
    pub fd: i64,
    pub mapoffset: u32,
    pub maxsize: u32,
    pub bytes: Seq<u8>,
    pub chunk: Option<Chunk>,
}

/// One block of a buffer: its memory, what kind of memory it is, and its
/// chunk if it has one.
#[derive(Debug)]
pub struct Data {
    type_: u32,
    flags: u32,
    fd: i64,
    mapoffset: u32,
    maxsize: u32,
    bytes: Vec<u8>,
    chunk: Option<Chunk>,
}

impl Data {
    /// The block as contracts see it.
    pub closed spec fn view(&self) -> DataView {
        DataView {
            type_: self.type_,
            flags: self.flags,
            fd: self.fd,
            mapoffset: self.mapoffset,
            maxsize: self.maxsize,
            bytes: self.bytes@,
            chunk: self.chunk,
        }
    }

    /// The memory of a block is as long as its `maxsize` says.
    pub closed spec fn wf(&self) -> bool {
        self.bytes@.len() == self.maxsize
    }

    /// A block over `bytes`; `None` exactly when they are more than a
    /// `u32` can count.
    pub fn new(type_: u32, flags: u32, fd: i64, mapoffset: u32, bytes: Vec<u8>, chunk: Option<Chunk>)
        -> (made: Option<Data>)
        ensures
            made is Some <==> bytes@.len() <= u32::MAX,
            made matches Some(d) ==> d.wf() && d@ == (DataView {
                type_,
                flags,
                fd,
                mapoffset,
                maxsize: bytes@.len() as u32,
                bytes: bytes@,
                chunk,
            }),
    {
        if bytes.len() > 4_294_967_295 {
            None
        } else {
            let maxsize: u32 = bytes.len() as u32;
            Some(Data { type_, flags, fd, mapoffset, maxsize, bytes, chunk })
        }
    }

    /// The memory of the block, all `maxsize` bytes of it, to read and to
    /// write. Nothing else of the block changes.
    pub fn get_mut(&mut self) -> (bytes: &mut [u8])
        requires
            old(self).wf(),
        ensures
            bytes@ == old(self)@.bytes,
            bytes@.len() == old(self)@.maxsize,
            final(self)@ == (DataView { bytes: final(bytes)@, ..old(self)@ }),
            final(bytes)@.len() == bytes@.len() ==> final(self).wf(),
    {
        self.bytes.as_mut_slice()
    }

    /// The chunk of the block, to read and to set. Nothing else of the
    /// block changes.
    pub fn chunk(&mut self) -> (chunk: &mut Chunk)
        requires
            old(self)@.chunk is Some,
        ensures
            *chunk == old(self)@.chunk.unwrap(),
            final(self)@ == (DataView { chunk: Some(*final(chunk)), ..old(self)@ }),
            old(self).wf() ==> final(self).wf(),
    {
        match &mut self.chunk {
            Some(chunk) => chunk,
            None => vstd::pervasive::unreached(),
        }
    }

    /// Whether the block has a chunk.
    pub fn has_chunk(&self) -> (yes: bool)
        ensures
            yes == (self@.chunk is Some),
    {
        self.chunk.is_some()
    }

    /// The kind of memory.
    pub fn type_(&self) -> (type_: u32)
        ensures
            type_ == self@.type_,
    {
        self.type_
    }

    /// The flags of the block.
    pub fn flags(&self) -> (flags: u32)
        ensures
            flags == self@.flags,
    {
        self.flags
    }

    /// Where in the descriptor the memory starts.
    pub fn map_offset(&self) -> (offset: u32)
        ensures
            offset == self@.mapoffset,
    {
        self.mapoffset
    }

    /// The length of the memory.
    pub fn max_size(&self) -> (size: u32)
        ensures
            size == self@.maxsize,
    {
        self.maxsize
    }

    /// The descriptor of the memory, cut down to the width of a
    /// descriptor.
    pub fn fd(&self) -> (fd: i32)
        ensures
            fd == self@.fd as i32,
    {
        #[verifier::truncate]
        (self.fd as i32)
    }

    /// Sets the descriptor of the memory. Nothing else of the block
    /// changes.
    pub fn set_fd(&mut self, fd: i32)
        ensures
            final(self)@ == (DataView { fd: fd as i64, ..old(self)@ }),
            old(self).wf() ==> final(self).wf(),
    {
        self.fd = fd as i64;
    }
}

} // verus!
