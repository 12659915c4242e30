use crate::texture::InternalFormat;
use crate::uniform_data::UniformValue;
use crate::utils::ColorFormat;
use crate::vertex::{AttributeType, Vertex};
use vstd::prelude::*;

verus! {

/// The two binding points of a buffer object.
#[derive(Clone, Copy, Debug, PartialEq, Eq, Structural)]
pub enum BufferTarget {
    /// Vertex data.
    Array,
    /// Index data.
    ElementArray,
}

/// The stage of the pipeline that a shader object is compiled for.
#[derive(Clone, Copy, Debug, PartialEq, Eq, Structural)]
pub enum ShaderStage {
    Vertex,
    Fragment,
    Compute,
}

/// A sampling parameter of a texture together with the value it is set to.
#[derive(Clone, Copy, Debug, PartialEq, Eq, Structural)]
pub enum TextureParameter {
    /// Minification takes the nearest texel.
    MinFilterNearest,
    /// Magnification takes the nearest texel.
    MagFilterNearest,
    /// Horizontal coordinates are clamped to the edge.
    WrapSClampToEdge,
    /// Vertical coordinates are clamped to the edge.
    WrapTClampToEdge,
    /// Depth comparison passes on less-or-equal.
    CompareFuncLessEqual,
}

/// One call of the graphics backend that carries no bulk data.
///
/// Objects of the backend are named by handles that the [`CommandQueue`]
/// hands out. The handle zero names no object: binding it unbinds.
#[derive(Clone, Copy, Debug, PartialEq, Eq)]
pub enum Call {
    /// Creates the buffer object that `buffer` names from now on.
    GenBuffer { buffer: u32 },
    /// Deletes a buffer object.
    DeleteBuffer { buffer: u32 },
    /// Binds a buffer object to a binding point.
    BindBuffer { target: BufferTarget, buffer: u32 },
    /// Creates the vertex array object that `array` names from now on.
    GenVertexArray { array: u32 },
    /// Deletes a vertex array object.
    DeleteVertexArray { array: u32 },
    /// Binds a vertex array object.
    BindVertexArray { array: u32 },
    /// Switches a vertex attribute on.
    EnableVertexAttribArray { index: u32 },
    /// Says where in the records of the bound vertex buffer an attribute lies.
    VertexAttribPointer {
        index: u32,
        components: usize,
        attrib_type: AttributeType,
        normalized: bool,
        stride: usize,
        offset: u32,
    },
    /// Draws `count` indices of the bound index buffer as triangles.
    DrawElements { count: usize },
    /// Draws the first `count` vertices of the bound vertex buffer as points.
    DrawArrays { count: usize },
    /// Creates the shader object that `shader` names from now on.
    CreateShader { shader: u32, stage: ShaderStage },
    /// Compiles the source that a shader object was given.
    CompileShader { shader: u32 },
    /// Deletes a shader object.
    DeleteShader { shader: u32 },
    /// Creates the program object that `program` names from now on.
    CreateProgram { program: u32 },
    /// Attaches a shader object to a program.
    AttachShader { program: u32, shader: u32 },
    /// Detaches a shader object from a program.
    DetachShader { program: u32, shader: u32 },
    /// Links the attached shader objects into the program.
    LinkProgram { program: u32 },
    /// Validates a linked program against the current state.
    ValidateProgram { program: u32 },
    /// Makes a program the one that draws and that uniforms are written to.
    UseProgram { program: u32 },
    /// Deletes a program object.
    DeleteProgram { program: u32 },
    /// Writes a value to a uniform location of the program in use.
    Uniform { location: i32, value: UniformValue },
    /// Creates the texture object that `texture` names from now on.
    GenTexture { texture: u32 },
    /// Deletes a texture object.
    DeleteTexture { texture: u32 },
    /// Selects the texture unit that the next binding goes to.
    ActiveTexture { unit: u32 },
    /// Binds a two-dimensional texture to the selected texture unit.
    BindTexture { texture: u32 },
    /// Sets a sampling parameter of the bound texture.
    TexParameter { parameter: TextureParameter },
    /// Gives the bound texture an image of this size, without contents.
    AllocateImage { internal_format: InternalFormat, width: u32, height: u32, format: ColorFormat },
    /// Binds level zero of a texture to an image unit, for writing.
    BindImageTexture { unit: u32, texture: u32, internal_format: InternalFormat },
    /// Runs the compute program in use over this many work groups.
    DispatchCompute { x: u32, y: u32, z: u32 },
    /// Clears the colour buffer, the depth buffer, or both.
    Clear { color: bool, depth: bool },
}

/// One entry of the command queue: a call of the backend, or bulk data for
/// the object that is bound.
#[derive(Clone, Debug, PartialEq, Eq)]
pub enum Command {
    /// A call without bulk data.
    Call(Call),
    /// Replaces the contents of the bound vertex buffer.
    VertexData { vertices: Vec<Vertex> },
    /// Replaces the contents of the bound index buffer.
    IndexData { indices: Vec<u32> },
    /// Replaces the image of the bound texture, pixel storage and contents.
    ImageData { format: ColorFormat, width: u32, height: u32, pixels: Vec<u8> },
    /// Gives a shader object its source text.
    ShaderSource { shader: u32, source: String },
}

/// What a [`Command`] says, with its bulk data as a sequence.
pub ghost enum CommandView {
    Call(Call),
    VertexData { vertices: Seq<Vertex> },
    IndexData { indices: Seq<u32> },
    ImageData { format: ColorFormat, width: u32, height: u32, pixels: Seq<u8> },
    ShaderSource { shader: u32, source: Seq<char> },
}

impl View for Command {
    type V = CommandView;

    open spec fn view(&self) -> CommandView {
        match self {
            Command::Call(call) => CommandView::Call(*call),
            Command::VertexData { vertices } => CommandView::VertexData { vertices: vertices@ },
            Command::IndexData { indices } => CommandView::IndexData { indices: indices@ },
            Command::ImageData { format, width, height, pixels } => CommandView::ImageData {
                format: *format,
                width: *width,
                height: *height,
                pixels: pixels@,
            },
            Command::ShaderSource { shader, source } => CommandView::ShaderSource {
                shader: *shader,
                source: source@,
            },
        }
    }
}

/// What each of `commands` says, in order.
pub open spec fn command_views(commands: Seq<Command>) -> Seq<CommandView> {
    Seq::new(commands.len(), |i: int| commands[i]@)
}

/// The calls that the backend has yet to make, in order, together with the
/// handles that are still free.
pub struct CommandQueue {
    commands: Vec<Command>,
    next_handle: u32,
}

impl View for CommandQueue {
    type V = Seq<CommandView>;

    closed spec fn view(&self) -> Seq<CommandView> {
        command_views(self.commands@)
    }
}

impl CommandQueue {
    /// The handle that is handed out next.
    pub closed spec fn next_handle(&self) -> u32 {
        self.next_handle
    }

    /// The number of handles that can still be handed out.
    pub open spec fn handles_left(&self) -> nat {
        (u32::MAX - self.next_handle()) as nat
    }

    /// The queue holds `commands` more than `before` did, at its end, and
    /// has handed out `handles` more handles.
    pub open spec fn extends(
        &self,
        before: CommandQueue,
        commands: Seq<CommandView>,
        handles: nat,
    ) -> bool {
        &&& self@ == before@ + commands
        &&& self.next_handle() == before.next_handle() + handles
    }

    /// The queue holds the commands that `before` held, and has handed out
    /// the handles that `before` had.
    pub open spec fn unchanged(&self, before: CommandQueue) -> bool {
        &&& self@ == before@
        &&& self.next_handle() == before.next_handle()
    }

    /// An empty queue that has handed out no handle yet.
    pub fn new() -> (queue: CommandQueue)
        ensures
            queue@ == Seq::<CommandView>::empty(),
            queue.next_handle() == 1,
    {
        let queue = CommandQueue { commands: Vec::new(), next_handle: 1 };
        assert(queue@ =~= Seq::<CommandView>::empty());
        queue
    }

    /// Appends one entry to the queue.
    pub fn record(&mut self, command: Command)
        ensures
            final(self)@ == old(self)@.push(command@),
            final(self).next_handle() == old(self).next_handle(),
    {
        self.commands.push(command);
        assert(self@ =~= old(self)@.push(command@));
    }

    /// Appends one call to the queue.
    pub fn call(&mut self, call: Call)
        ensures
            final(self)@ == old(self)@.push(CommandView::Call(call)),
            final(self).next_handle() == old(self).next_handle(),
    {
        self.record(Command::Call(call));
    }

    /// Hands out `count` handles that were never handed out before, as the
    /// first of them: the others follow it without a gap. Hands out nothing
    /// where fewer than `count` are left.
    pub fn reserve_handles(&mut self, count: u32) -> (first: Option<u32>)
        ensures
            final(self)@ == old(self)@,
            count <= old(self).handles_left() ==> first == Some(old(self).next_handle())
                && final(self).next_handle() == old(self).next_handle() + count,
            count > old(self).handles_left() ==> first is None && final(self).next_handle() == old(
                self,
            ).next_handle(),
    {
        if count > u32::MAX - self.next_handle {
            return None;
        }
        let first = self.next_handle;
        self.next_handle = first + count;
        Some(first)
    }

    /// The number of handles that can still be handed out.
    pub fn free_handles(&self) -> (left: u32)
        ensures
            left == self.handles_left(),
    {
        u32::MAX - self.next_handle
    }

    /// The entries that are waiting.
    pub fn commands(&self) -> (commands: &Vec<Command>)
        ensures
            command_views(commands@) == self@,
    {
        &self.commands
    }

    /// Takes the waiting entries out of the queue, which is empty afterwards.
    /// The handles that were handed out stay taken.
    pub fn take_commands(&mut self) -> (commands: Vec<Command>)
        ensures
            command_views(commands@) == old(self)@,
            final(self)@ == Seq::<CommandView>::empty(),
            final(self).next_handle() == old(self).next_handle(),
    {
        let mut commands: Vec<Command> = Vec::new();
        core::mem::swap(&mut commands, &mut self.commands);
        assert(self@ =~= Seq::<CommandView>::empty());
        commands
    }
}

} // verus!
