//! A rendering-resource layer that sits above a graphics backend.
//!
//! The layer keeps track of shader programs, vertex and index buffers, the
//! vertex attribute layout, textures and uniform values. It never talks to the
//! backend itself: every operation appends the backend calls it stands for to
//! a [`CommandQueue`], in the order in which they have to be made, and the
//! owner of the graphics context replays them.

pub mod backend;
pub mod buffer;
pub mod error;
pub mod loader;
pub mod render_caller;
pub mod renderer;
pub mod shader;
pub mod shader_manager;
pub mod texture;
pub mod uniform_data;
pub mod uniform_scan;
pub mod utils;
pub mod vertex;
pub mod vertex_array;
pub mod vertex_pack;

pub use backend::{
    BufferTarget, Call, Command, CommandQueue, CommandView, ShaderStage, TextureParameter,
};
pub use buffer::{ArrayBuffer, ElementBuffer};
pub use error::{GraphicsError, LayoutError};
pub use loader::{is_image_name, load_shaders, load_texture, load_textures};
pub use render_caller::RenderCaller;
pub use renderer::Renderer;
pub use shader::{
    LinkStep, ProgramBuild, ProgramType, Shader, ShaderIdentifier, ShaderMetadata, StageBuild,
    UniformQuery,
};
pub use shader_manager::ShaderManager;
pub use texture::{InternalFormat, Texture, TextureManager, TextureMetadata, TextureView};
pub use uniform_data::{TextureUniform, Uniform, UniformData, UniformValue};
pub use utils::{ColorFormat, PngData};
pub use vertex::{
    AttributePointer, AttributePointerList, AttributeType, FloatBits, Vertex, V2C3UV,
};
pub use vertex_array::VertexArray;
pub use vertex_pack::VertexPack;
