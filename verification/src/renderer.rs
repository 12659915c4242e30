use crate::backend::{BufferTarget, Call, CommandQueue, CommandView};
use crate::error::GraphicsError;
use crate::render_caller::RenderCaller;
use crate::shader::ShaderIdentifier;
use crate::shader_manager::ShaderManager;
use crate::texture::{resize_commands, TextureManager};
use crate::vertex::{Vertex, VERTEX_SIZE};
use crate::vertex_array::{attribute_commands, creation_commands, VertexArray, SLOT_COUNT};
use crate::vertex_pack::VertexPack;
use vstd::prelude::*;

verus! {

/// The calls that draw the first `count` vertices of `slot` as points: the
/// slot is bound with the layout, without its index buffer, and drawn.
pub open spec fn point_draw_commands(array: VertexArray, slot: int, count: usize) -> Seq<CommandView> {
    seq![
        CommandView::Call(Call::BindVertexArray { array: array.spec_id() }),
        CommandView::Call(
            Call::BindBuffer {
                target: BufferTarget::Array,
                buffer: array.vertex_buffers()[slot].spec_id(),
            },
        ),
    ] + attribute_commands(
        array.layout()@,
        array.layout().spec_stride(),
        array.layout()@.len() as int,
    ) + seq![CommandView::Call(Call::DrawArrays { count })]
}

/// Draws the frames of a session: each frame is a set of points.
pub struct Renderer {
    render_caller: RenderCaller,
}

impl Renderer {
    /// The session that the renderer draws with.
    pub closed spec fn caller(&self) -> RenderCaller {
        self.render_caller
    }

    /// The session is well formed.
    pub open spec fn wf(&self) -> bool {
        self.caller().wf()
    }

    /// The calls of one frame that shows `vertices`: both buffers of the
    /// screen are cleared, the vertices are packed into slot zero without
    /// indices, the default shader is bound, and the slot is drawn. Nothing
    /// is drawn where there are no vertices.
    pub open spec fn frame_commands(&self, vertices: Seq<Vertex>) -> Seq<CommandView> {
        seq![CommandView::Call(Call::Clear { color: true, depth: true })]
            + self.caller().pack_commands(0, vertices, Seq::empty()) + ShaderManager::bind_commands(
            self.caller().shader_manager().bound(),
            self.caller().shader_manager().shader(ShaderIdentifier::Default).spec_program(),
        ) + if vertices.len() > 0 {
            point_draw_commands(self.caller().vertex_array(), 0, vertices.len() as usize)
        } else {
            Seq::empty()
        }
    }

    /// Starts a renderer for a screen of the given size, with the shader
    /// programs and the textures that were loaded for it.
    pub fn new(
        screen_dimensions: (u32, u32),
        shader_manager: ShaderManager,
        texture_manager: TextureManager,
        gl: &mut CommandQueue,
    ) -> (result: Result<Renderer, GraphicsError>)
        requires
            shader_manager.wf(),
            texture_manager.wf(),
            texture_manager.follows_screen(screen_dimensions),
        ensures
            old(gl).handles_left() >= 1 + 2 * SLOT_COUNT ==> result is Ok,
            result matches Ok(renderer) ==> {
                &&& renderer.wf()
                &&& renderer.caller().screen_dimensions() == screen_dimensions
                &&& renderer.caller().shader_manager() == shader_manager
                &&& renderer.caller().texture_manager() == texture_manager
                &&& renderer.caller().vertex_array().spec_id() == old(gl).next_handle()
                &&& forall|slot: int|
                    0 <= slot < SLOT_COUNT ==> #[trigger] renderer.caller().vertex_array().vertex_count(
                        slot,
                    ) == 0 && renderer.caller().vertex_array().index_count(slot) == 0
                &&& final(gl).extends(
                    *old(gl),
                    creation_commands(old(gl).next_handle(), Vertex::layout(), VERTEX_SIZE),
                    1 + 2 * SLOT_COUNT as nat,
                )
            },
            result matches Err(error) ==> error == GraphicsError::OutOfHandles && final(gl).unchanged(
                *old(gl),
            ),
    {
        match RenderCaller::new(screen_dimensions, shader_manager, texture_manager, gl) {
            Ok(render_caller) => Ok(Renderer { render_caller }),
            Err(error) => Err(error),
        }
    }

    /// Draws one frame that shows `vertices` as points.
    pub fn render(&mut self, vertices: Vec<Vertex>, gl: &mut CommandQueue)
        requires
            old(self).wf(),
        ensures
            final(self).wf(),
            final(self).caller().screen_dimensions() == old(self).caller().screen_dimensions(),
            final(self).caller().texture_manager() == old(self).caller().texture_manager(),
            final(self).caller().shader_manager().bound() == Some(ShaderIdentifier::Default),
            final(self).caller().vertex_array().vertex_count(0) == vertices@.len(),
            final(self).caller().vertex_array().index_count(0) == 0,
            final(gl).extends(*old(gl), old(self).frame_commands(vertices@), 0),
    {
        let ghost shown = vertices@;
        let count = vertices.len();
        match self.render_caller.clear_buffers(true, true, gl) {
            Ok(()) => {},
            Err(_) => vstd::pervasive::unreached(),
        }
        match self.render_caller.pack(0, VertexPack { vertices, elements: Vec::new() }, gl) {
            Ok(()) => {},
            Err(_) => vstd::pervasive::unreached(),
        }
        self.render_caller.choose_shader(ShaderIdentifier::Default, gl);
        if count > 0 {
            self.render_caller.render(0, gl);
            proof {
                let array = self.render_caller.vertex_array();
                assert(array.bind_commands(0).push(array.draw_command(0)) =~= point_draw_commands(
                    old(self).caller().vertex_array(),
                    0,
                    count,
                ));
            }
        }
        assert(gl@ =~= old(gl)@ + old(self).frame_commands(shown));
    }

    /// Takes the new size of the screen, and fits the textures that follow
    /// the screen to it.
    pub fn update_screen_dimensions(&mut self, screen_dimensions: (u32, u32), gl: &mut CommandQueue)
        requires
            old(self).wf(),
        ensures
            final(self).wf(),
            final(self).caller().screen_dimensions() == screen_dimensions,
            final(self).caller().vertex_array() == old(self).caller().vertex_array(),
            final(self).caller().shader_manager() == old(self).caller().shader_manager(),
            final(self).caller().texture_manager().names() == old(
                self,
            ).caller().texture_manager().names(),
            final(self).caller().texture_manager().textures().len() == old(
                self,
            ).caller().texture_manager().textures().len(),
            forall|i: int|
                0 <= i < old(self).caller().texture_manager().textures().len()
                    ==> #[trigger] final(self).caller().texture_manager().textures()[i] == if old(
                    self,
                ).caller().texture_manager().textures()[i].metadata.screen_dependant_dimensions {
                    old(self).caller().texture_manager().textures()[i].recreated(screen_dimensions)
                } else {
                    old(self).caller().texture_manager().textures()[i]
                },
            final(gl).extends(
                *old(gl),
                resize_commands(
                    old(self).caller().texture_manager().textures(),
                    screen_dimensions,
                    old(self).caller().texture_manager().textures().len() as int,
                ),
                0,
            ),
    {
        self.render_caller.update_screen_dimensions(screen_dimensions, gl);
    }

    /// The session that the renderer draws with.
    pub fn get_render_caller(&self) -> (caller: &RenderCaller)
        ensures
            *caller == self.caller(),
    {
        &self.render_caller
    }
}

} // verus!
