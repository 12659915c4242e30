use crate::backend::{BufferTarget, Call, Command, CommandQueue, CommandView};
use crate::error::GraphicsError;
use crate::vertex::{Vertex, VERTEX_SIZE};
use vstd::prelude::*;

verus! {

/// A buffer object of the backend that holds vertex records.
pub struct ArrayBuffer {
    id: u32,
    size: usize,
    stride: usize,
}

impl ArrayBuffer {
    /// The handle of the buffer object.
    pub closed spec fn spec_id(&self) -> u32 {
        self.id
    }

    /// The number of vertices that the buffer was last filled with.
    pub closed spec fn spec_size(&self) -> usize {
        self.size
    }

    /// The number of bytes of one vertex record.
    pub closed spec fn spec_stride(&self) -> usize {
        self.stride
    }

    /// The calls that fill the buffer `id` with `data`.
    pub open spec fn fill_commands(id: u32, data: Seq<Vertex>) -> Seq<CommandView> {
        seq![
            CommandView::Call(Call::BindBuffer { target: BufferTarget::Array, buffer: id }),
            CommandView::VertexData { vertices: data },
        ]
    }

    /// Creates an empty vertex buffer under the next free handle.
    pub fn new(gl: &mut CommandQueue) -> (result: Result<ArrayBuffer, GraphicsError>)
        ensures
            old(gl).handles_left() >= 1 ==> result is Ok,
            result matches Ok(buffer) ==> {
                &&& buffer.spec_id() == old(gl).next_handle()
                &&& buffer.spec_size() == 0
                &&& buffer.spec_stride() == VERTEX_SIZE
                &&& final(gl).extends(*old(gl), seq![CommandView::Call(Call::GenBuffer { buffer: buffer.spec_id() })], 1)
            },
            result matches Err(error) ==> error == GraphicsError::OutOfHandles && final(gl).unchanged(
                *old(gl),
            ),
    {
        match gl.reserve_handles(1) {
            Some(id) => {
                gl.call(Call::GenBuffer { buffer: id });
                assert(gl@ =~= old(gl)@ + seq![CommandView::Call(Call::GenBuffer { buffer: id })]);
                Ok(ArrayBuffer { id, size: 0, stride: VERTEX_SIZE })
            },
            None => Err(GraphicsError::OutOfHandles),
        }
    }

    /// Binds the buffer to the vertex data binding point.
    pub fn bind(&self, gl: &mut CommandQueue)
        ensures
            final(gl).extends(
                *old(gl),
                seq![CommandView::Call(Call::BindBuffer { target: BufferTarget::Array, buffer: self.spec_id() })],
                0,
            ),
    {
        gl.call(Call::BindBuffer { target: BufferTarget::Array, buffer: self.id });
        assert(gl@ =~= old(gl)@ + seq![
            CommandView::Call(Call::BindBuffer { target: BufferTarget::Array, buffer: self.id }),
        ]);
    }

    /// Replaces the contents of the buffer by `data`, and leaves the buffer
    /// bound.
    pub fn fill(&mut self, data: Vec<Vertex>, gl: &mut CommandQueue)
        ensures
            final(self).spec_size() == data@.len(),
            final(self).spec_id() == old(self).spec_id(),
            final(self).spec_stride() == old(self).spec_stride(),
            final(gl).extends(*old(gl), Self::fill_commands(old(self).spec_id(), data@), 0),
    {
        self.size = data.len();
        gl.call(Call::BindBuffer { target: BufferTarget::Array, buffer: self.id });
        gl.record(Command::VertexData { vertices: data });
        assert(gl@ =~= old(gl)@ + Self::fill_commands(self.id, data@));
    }

    /// The handle of the buffer object.
    #[verifier::when_used_as_spec(spec_id)]
    pub fn get_id(&self) -> (id: u32)
        ensures
            id == self.spec_id(),
    {
        self.id
    }

    #[verifier::when_used_as_spec(spec_stride)]
    pub fn get_stride(&self) -> (stride: usize)
        ensures
            stride == self.spec_stride(),
    {
        self.stride
    }

    #[verifier::when_used_as_spec(spec_size)]
    pub fn get_size(&self) -> (size: usize)
        ensures
            size == self.spec_size(),
    {
        self.size
    }

    /// Gives the buffer object up.
    pub fn delete(self, gl: &mut CommandQueue)
        ensures
            final(gl).extends(*old(gl), seq![CommandView::Call(Call::DeleteBuffer { buffer: self.spec_id() })], 0),
    {
        gl.call(Call::DeleteBuffer { buffer: self.id });
        assert(gl@ =~= old(gl)@ + seq![CommandView::Call(Call::DeleteBuffer { buffer: self.id })]);
    }
}

/// A buffer object of the backend that holds vertex indices.
pub struct ElementBuffer {
    id: u32,
    size: usize,
}

impl ElementBuffer {
    /// The handle of the buffer object.
    pub closed spec fn spec_id(&self) -> u32 {
        self.id
    }

    /// The number of indices that the buffer was last filled with.
    pub closed spec fn spec_size(&self) -> usize {
        self.size
    }

    /// The calls that fill the buffer `id` with `data`.
    pub open spec fn fill_commands(id: u32, data: Seq<u32>) -> Seq<CommandView> {
        seq![
            CommandView::Call(Call::BindBuffer { target: BufferTarget::ElementArray, buffer: id }),
            CommandView::IndexData { indices: data },
            CommandView::Call(Call::BindBuffer { target: BufferTarget::ElementArray, buffer: 0 }),
        ]
    }

    /// Creates an empty index buffer under the next free handle.
    pub fn new(gl: &mut CommandQueue) -> (result: Result<ElementBuffer, GraphicsError>)
        ensures
            old(gl).handles_left() >= 1 ==> result is Ok,
            result matches Ok(buffer) ==> {
                &&& buffer.spec_id() == old(gl).next_handle()
                &&& buffer.spec_size() == 0
                &&& final(gl).extends(*old(gl), seq![CommandView::Call(Call::GenBuffer { buffer: buffer.spec_id() })], 1)
            },
            result matches Err(error) ==> error == GraphicsError::OutOfHandles && final(gl).unchanged(
                *old(gl),
            ),
    {
        match gl.reserve_handles(1) {
            Some(id) => {
                gl.call(Call::GenBuffer { buffer: id });
                assert(gl@ =~= old(gl)@ + seq![CommandView::Call(Call::GenBuffer { buffer: id })]);
                Ok(ElementBuffer { id, size: 0 })
            },
            None => Err(GraphicsError::OutOfHandles),
        }
    }

    /// The handle of the buffer object.
    #[verifier::when_used_as_spec(spec_id)]
    pub fn get_id(&self) -> (id: u32)
        ensures
            id == self.spec_id(),
    {
        self.id
    }

    #[verifier::when_used_as_spec(spec_size)]
    pub fn get_size(&self) -> (size: usize)
        ensures
            size == self.spec_size(),
    {
        self.size
    }

    /// Binds the buffer to the index data binding point.
    pub fn bind(&self, gl: &mut CommandQueue)
        ensures
            final(gl).extends(
                *old(gl),
                seq![CommandView::Call(Call::BindBuffer { target: BufferTarget::ElementArray, buffer: self.spec_id() })],
                0,
            ),
    {
        gl.call(Call::BindBuffer { target: BufferTarget::ElementArray, buffer: self.id });
        assert(gl@ =~= old(gl)@ + seq![
            CommandView::Call(Call::BindBuffer { target: BufferTarget::ElementArray, buffer: self.id }),
        ]);
    }

    /// Replaces the contents of the buffer by `data`, and unbinds the buffer.
    pub fn fill(&mut self, data: Vec<u32>, gl: &mut CommandQueue)
        ensures
            final(self).spec_size() == data@.len(),
            final(self).spec_id() == old(self).spec_id(),
            final(gl).extends(*old(gl), Self::fill_commands(old(self).spec_id(), data@), 0),
    {
        self.size = data.len();
        gl.call(Call::BindBuffer { target: BufferTarget::ElementArray, buffer: self.id });
        gl.record(Command::IndexData { indices: data });
        gl.call(Call::BindBuffer { target: BufferTarget::ElementArray, buffer: 0 });
        assert(gl@ =~= old(gl)@ + Self::fill_commands(self.id, data@));
    }

    /// Gives the buffer object up.
    pub fn delete(self, gl: &mut CommandQueue)
        ensures
            final(gl).extends(*old(gl), seq![CommandView::Call(Call::DeleteBuffer { buffer: self.spec_id() })], 0),
    {
        gl.call(Call::DeleteBuffer { buffer: self.id });
        assert(gl@ =~= old(gl)@ + seq![CommandView::Call(Call::DeleteBuffer { buffer: self.id })]);
    }
}

} // verus!
