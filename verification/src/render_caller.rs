use crate::backend::{Call, CommandQueue, CommandView};
use crate::buffer::{ArrayBuffer, ElementBuffer};
use crate::error::{error_views, GraphicsError, GraphicsErrorView};
use crate::shader::ShaderIdentifier;
use crate::shader_manager::{dispatch_commands, dispatch_errors, program_deletions, ShaderManager};
use crate::texture::{resize_commands, texture_deletions, TextureManager};
use crate::uniform_data::UniformData;
use crate::vertex::{Vertex, VERTEX_SIZE};
use crate::vertex_array::{creation_commands, VertexArray, SLOT_COUNT};
use crate::vertex_pack::VertexPack;
use vstd::prelude::*;

verus! {

/// The rendering session: the buffer slots, the shader programs and the
/// textures, with the size of the screen. It makes the calls of one frame in
/// their order: clear, pack, choose a shader, send uniforms, render.
pub struct RenderCaller {
    vertex_array: VertexArray,
    shader_manager: ShaderManager,
    texture_manager: TextureManager,
    screen_dimensions: (u32, u32),
}

impl RenderCaller {
    /// The buffer slots.
    pub closed spec fn vertex_array(&self) -> VertexArray {
        self.vertex_array
    }

    /// The shader programs.
    pub closed spec fn shader_manager(&self) -> ShaderManager {
        self.shader_manager
    }

    /// The textures.
    pub closed spec fn texture_manager(&self) -> TextureManager {
        self.texture_manager
    }

    /// The size of the screen, width first.
    pub closed spec fn screen_dimensions(&self) -> (u32, u32) {
        self.screen_dimensions
    }

    /// The parts are well formed, and every texture that follows the screen
    /// has its size.
    pub open spec fn wf(&self) -> bool {
        &&& self.vertex_array().wf()
        &&& self.shader_manager().wf()
        &&& self.texture_manager().wf()
        &&& self.texture_manager().follows_screen(self.screen_dimensions())
    }

    /// The calls that fill a slot with a pack: those for the vertices, then
    /// those for the indices.
    pub open spec fn pack_commands(&self, buffer: int, vertices: Seq<Vertex>, elements: Seq<u32>) -> Seq<
        CommandView,
    > {
        ArrayBuffer::fill_commands(self.vertex_array().vertex_buffers()[buffer].spec_id(), vertices)
            + ElementBuffer::fill_commands(
            self.vertex_array().index_buffers()[buffer].spec_id(),
            elements,
        )
    }

    /// The calls that run a compute program into the texture `texture`: its
    /// image is bound for writing, and the work groups are started.
    pub open spec fn compute_commands(&self, texture: Seq<char>, dimensions: (u32, u32, u32)) -> Seq<
        CommandView,
    > {
        seq![
            CommandView::Call(
                Call::BindImageTexture {
                    unit: 0,
                    texture: self.texture_manager().texture(texture).id,
                    internal_format: self.texture_manager().texture(texture).metadata.internal_format,
                },
            ),
            CommandView::Call(
                Call::DispatchCompute { x: dimensions.0, y: dimensions.1, z: dimensions.2 },
            ),
        ]
    }

    /// Starts a session for a screen of the given size, with the shader
    /// programs and the textures that were loaded for it, and creates the
    /// buffer slots.
    pub fn new(
        screen_dimensions: (u32, u32),
        shader_manager: ShaderManager,
        texture_manager: TextureManager,
        gl: &mut CommandQueue,
    ) -> (result: Result<RenderCaller, GraphicsError>)
        requires
            shader_manager.wf(),
            texture_manager.wf(),
            texture_manager.follows_screen(screen_dimensions),
        ensures
            old(gl).handles_left() >= 1 + 2 * SLOT_COUNT ==> result is Ok,
            result matches Ok(caller) ==> {
                &&& caller.wf()
                &&& caller.screen_dimensions() == screen_dimensions
                &&& caller.shader_manager() == shader_manager
                &&& caller.texture_manager() == texture_manager
                &&& caller.vertex_array().spec_id() == old(gl).next_handle()
                &&& forall|slot: int|
                    0 <= slot < SLOT_COUNT ==> #[trigger] caller.vertex_array().vertex_count(slot) == 0
                        && caller.vertex_array().index_count(slot) == 0
                &&& final(gl).extends(
                    *old(gl),
                    creation_commands(old(gl).next_handle(), Vertex::layout(), VERTEX_SIZE),
                    1 + 2 * SLOT_COUNT as nat,
                )
            },
            result matches Err(error) ==> error == GraphicsError::OutOfHandles && final(gl).unchanged(
                *old(gl),
            ),
    {
        let vertex_array = match VertexArray::new(gl) {
            Ok(vertex_array) => vertex_array,
            Err(error) => { return Err(error); },
        };
        Ok(RenderCaller { vertex_array, shader_manager, texture_manager, screen_dimensions })
    }

    /// Takes the new size of the screen, and fits the textures that follow
    /// the screen to it.
    pub fn update_screen_dimensions(&mut self, screen_dimensions: (u32, u32), gl: &mut CommandQueue)
        requires
            old(self).wf(),
        ensures
            final(self).wf(),
            final(self).screen_dimensions() == screen_dimensions,
            final(self).vertex_array() == old(self).vertex_array(),
            final(self).shader_manager() == old(self).shader_manager(),
            final(self).texture_manager().names() == old(self).texture_manager().names(),
            final(self).texture_manager().textures().len() == old(
                self,
            ).texture_manager().textures().len(),
            forall|i: int|
                0 <= i < old(self).texture_manager().textures().len()
                    ==> #[trigger] final(self).texture_manager().textures()[i] == if old(
                    self,
                ).texture_manager().textures()[i].metadata.screen_dependant_dimensions {
                    old(self).texture_manager().textures()[i].recreated(screen_dimensions)
                } else {
                    old(self).texture_manager().textures()[i]
                },
            final(gl).extends(
                *old(gl),
                resize_commands(
                    old(self).texture_manager().textures(),
                    screen_dimensions,
                    old(self).texture_manager().textures().len() as int,
                ),
                0,
            ),
    {
        self.screen_dimensions = screen_dimensions;
        self.texture_manager.update_screen_dimensions(screen_dimensions, gl);
    }

    /// Fills the slot `buffer` with the vertices and the indices of `pack`,
    /// which replace what the slot held.
    pub fn pack(&mut self, buffer: usize, pack: VertexPack, gl: &mut CommandQueue) -> (result:
        Result<(), GraphicsError>)
        requires
            old(self).wf(),
        ensures
            final(self).wf(),
            final(self).screen_dimensions() == old(self).screen_dimensions(),
            final(self).shader_manager() == old(self).shader_manager(),
            final(self).texture_manager() == old(self).texture_manager(),
            final(self).vertex_array().same_handles(old(self).vertex_array()),
            buffer < SLOT_COUNT ==> {
                &&& result is Ok
                &&& final(self).vertex_array().vertex_count(buffer as int) == pack.vertices@.len()
                &&& final(self).vertex_array().index_count(buffer as int) == pack.elements@.len()
                &&& final(self).vertex_array().same_counts_except(
                    old(self).vertex_array(),
                    buffer as int,
                )
                &&& final(gl).extends(
                    *old(gl),
                    old(self).pack_commands(buffer as int, pack.vertices@, pack.elements@),
                    0,
                )
            },
            buffer >= SLOT_COUNT ==> {
                &&& result == Err::<(), GraphicsError>(
                    GraphicsError::SlotOutOfRange { slot: buffer, capacity: SLOT_COUNT },
                )
                &&& final(self).vertex_array() == old(self).vertex_array()
                &&& final(gl).unchanged(*old(gl))
            },
    {
        if buffer >= self.vertex_array.get_vbo_count() {
            return Err(GraphicsError::SlotOutOfRange { slot: buffer, capacity: SLOT_COUNT });
        }
        let VertexPack { vertices, elements } = pack;
        match self.vertex_array.fill_vbo(buffer, vertices, gl) {
            Ok(()) => {},
            Err(error) => { return Err(error); },
        }
        let filled = self.vertex_array.fill_ebo(buffer, elements, gl);
        assert(gl@ =~= old(gl)@ + old(self).pack_commands(buffer as int, vertices@, elements@));
        filled
    }

    /// Clears the vertices of the slot `buffer`.
    pub fn clear(&mut self, buffer: usize, gl: &mut CommandQueue) -> (result: Result<
        (),
        GraphicsError,
    >)
        requires
            old(self).wf(),
        ensures
            final(self).wf(),
            final(self).screen_dimensions() == old(self).screen_dimensions(),
            final(self).shader_manager() == old(self).shader_manager(),
            final(self).texture_manager() == old(self).texture_manager(),
            final(self).vertex_array().same_handles(old(self).vertex_array()),
            buffer < SLOT_COUNT ==> {
                &&& result is Ok
                &&& final(self).vertex_array().vertex_count(buffer as int) == 0
                &&& final(self).vertex_array().index_count(buffer as int) == old(
                    self,
                ).vertex_array().index_count(buffer as int)
                &&& final(self).vertex_array().same_counts_except(
                    old(self).vertex_array(),
                    buffer as int,
                )
                &&& final(gl).extends(
                    *old(gl),
                    ArrayBuffer::fill_commands(
                        old(self).vertex_array().vertex_buffers()[buffer as int].spec_id(),
                        Seq::empty(),
                    ),
                    0,
                )
            },
            buffer >= SLOT_COUNT ==> {
                &&& result == Err::<(), GraphicsError>(
                    GraphicsError::SlotOutOfRange { slot: buffer, capacity: SLOT_COUNT },
                )
                &&& final(self).vertex_array() == old(self).vertex_array()
                &&& final(gl).unchanged(*old(gl))
            },
    {
        if buffer >= self.vertex_array.get_vbo_count() {
            return Err(GraphicsError::SlotOutOfRange { slot: buffer, capacity: SLOT_COUNT });
        }
        self.vertex_array.clear(buffer, gl)
    }

    /// Binds the program of `shader` for the draws that follow.
    pub fn choose_shader(&mut self, shader: ShaderIdentifier, gl: &mut CommandQueue)
        requires
            old(self).wf(),
        ensures
            final(self).wf(),
            final(self).screen_dimensions() == old(self).screen_dimensions(),
            final(self).vertex_array() == old(self).vertex_array(),
            final(self).texture_manager() == old(self).texture_manager(),
            final(self).shader_manager().shaders() == old(self).shader_manager().shaders(),
            final(self).shader_manager().bound() == Some(shader),
            final(gl).extends(
                *old(gl),
                ShaderManager::bind_commands(
                    old(self).shader_manager().bound(),
                    old(self).shader_manager().shader(shader).spec_program(),
                ),
                0,
            ),
    {
        self.shader_manager.bind_shader(shader, gl);
    }

    /// Sends `uniforms` to the program that is bound. An entry that cannot
    /// be sent is passed over, and its error is given back with those of
    /// the others. Nothing is sent where no program is bound.
    pub fn uniforms(&self, uniforms: &UniformData, gl: &mut CommandQueue) -> (result: Result<
        Vec<GraphicsError>,
        GraphicsError,
    >)
        requires
            self.wf(),
            uniforms@.textures.len() <= i32::MAX,
        ensures
            self.shader_manager().bound() is None ==> result == Err::<
                Vec<GraphicsError>,
                GraphicsError,
            >(GraphicsError::NoBoundShaderError) && final(gl).unchanged(*old(gl)),
            self.shader_manager().bound() matches Some(bound) ==> {
                &&& result matches Ok(errors) && error_views(errors@) == dispatch_errors(
                    self.shader_manager().shader(bound).locations(),
                    self.texture_manager(),
                    uniforms@,
                )
                &&& final(gl).extends(
                    *old(gl),
                    dispatch_commands(
                        self.shader_manager().shader(bound).locations(),
                        self.texture_manager(),
                        uniforms@,
                    ),
                    0,
                )
            },
    {
        self.shader_manager.uniforms(uniforms, &self.texture_manager, gl)
    }

    /// Draws the slot `buffer`, which has to hold vertices.
    pub fn render(&self, buffer: usize, gl: &mut CommandQueue)
        requires
            self.wf(),
            buffer < SLOT_COUNT,
            self.vertex_array().vertex_count(buffer as int) > 0,
        ensures
            final(gl).extends(
                *old(gl),
                self.vertex_array().bind_commands(buffer as int).push(
                    self.vertex_array().draw_command(buffer as int),
                ),
                0,
            ),
    {
        match self.vertex_array.draw(buffer, gl) {
            Ok(()) => {},
            Err(_) => vstd::pervasive::unreached(),
        }
    }

    /// Clears the colour buffer, the depth buffer, or both. A clear of
    /// neither is refused.
    pub fn clear_buffers(&self, color_buffer: bool, depth_buffer: bool, gl: &mut CommandQueue) -> (result:
        Result<(), GraphicsError>)
        ensures
            color_buffer || depth_buffer ==> result is Ok && final(gl).extends(
                *old(gl),
                seq![CommandView::Call(Call::Clear { color: color_buffer, depth: depth_buffer })],
                0,
            ),
            !color_buffer && !depth_buffer ==> result == Err::<(), GraphicsError>(
                GraphicsError::NoOpClear,
            ) && final(gl).unchanged(*old(gl)),
    {
        if !color_buffer && !depth_buffer {
            return Err(GraphicsError::NoOpClear);
        }
        gl.call(Call::Clear { color: color_buffer, depth: depth_buffer });
        assert(gl@ =~= old(gl)@ + seq![
            CommandView::Call(Call::Clear { color: color_buffer, depth: depth_buffer }),
        ]);
        Ok(())
    }

    /// Runs the compute program that is bound over `dimensions` work
    /// groups, with the texture `output_texture` as the image that it writes.
    pub fn dispatch_compute(
        &self,
        output_texture: &str,
        dimensions: (u32, u32, u32),
        gl: &mut CommandQueue,
    ) -> (result: Result<(), GraphicsError>)
        requires
            self.wf(),
        ensures
            self.texture_manager().contains(output_texture@) ==> result is Ok && final(gl).extends(
                *old(gl),
                self.compute_commands(output_texture@, dimensions),
                0,
            ),
            !self.texture_manager().contains(output_texture@) ==> (result matches Err(error) && error@
                == GraphicsErrorView::TextureNotFound { name: output_texture@ }) && final(gl).unchanged(
                *old(gl),
            ),
    {
        let tex = match self.texture_manager.get_texture(output_texture) {
            Ok(tex) => tex,
            Err(error) => { return Err(error); },
        };
        gl.call(
            Call::BindImageTexture {
                unit: 0,
                texture: tex.get_id(),
                internal_format: tex.metadata.internal_format,
            },
        );
        gl.call(Call::DispatchCompute { x: dimensions.0, y: dimensions.1, z: dimensions.2 });
        assert(gl@ =~= old(gl)@ + self.compute_commands(output_texture@, dimensions));
        Ok(())
    }

    pub fn get_vbo_count(&self) -> (count: usize)
        requires
            self.wf(),
        ensures
            count == SLOT_COUNT,
    {
        self.vertex_array.get_vbo_count()
    }

    pub fn get_texture_manager(&self) -> (manager: &TextureManager)
        ensures
            *manager == self.texture_manager(),
    {
        &self.texture_manager
    }

    pub fn get_shader_manager(&self) -> (manager: &ShaderManager)
        ensures
            *manager == self.shader_manager(),
    {
        &self.shader_manager
    }

    /// The buffer slots.
    pub fn get_vertex_array(&self) -> (array: &VertexArray)
        ensures
            *array == self.vertex_array(),
    {
        &self.vertex_array
    }

    /// The size of the screen, width first.
    pub fn get_screen_dimensions(&self) -> (dimensions: (u32, u32))
        ensures
            dimensions == self.screen_dimensions(),
    {
        self.screen_dimensions
    }

    /// The calls that end the session: the buffer slots are given up, then
    /// the shader programs, then the textures.
    pub open spec fn deletion_commands(&self) -> Seq<CommandView> {
        self.vertex_array().deletion_commands() + program_deletions(
            self.shader_manager().shaders(),
            self.shader_manager().shaders().len() as int,
        ) + texture_deletions(
            self.texture_manager().textures(),
            self.texture_manager().textures().len() as int,
        )
    }

    /// Ends the session and gives up what it holds in the backend. This has
    /// to come before the graphics context itself is given up.
    pub fn delete(self, gl: &mut CommandQueue)
        ensures
            final(gl).extends(*old(gl), self.deletion_commands(), 0),
    {
        let RenderCaller { vertex_array, shader_manager, texture_manager, screen_dimensions: _ } =
            self;
        vertex_array.delete(gl);
        shader_manager.delete(gl);
        texture_manager.delete(gl);
        assert(gl@ =~= old(gl)@ + self.deletion_commands());
    }
}

} // verus!
