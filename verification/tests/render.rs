use render_core::{
    load_shaders, load_textures, AttributeType, BufferTarget, Call, ColorFormat, Command,
    CommandQueue, FloatBits, GraphicsError, InternalFormat, LinkStep, PngData, RenderCaller,
    Renderer, Shader, ShaderIdentifier, ShaderManager, ShaderStage, Texture, TextureManager,
    UniformData, UniformValue, Vertex, VertexPack, V2C3UV,
};

fn vertex(x: f32, y: f32) -> Vertex {
    V2C3UV {
        x: FloatBits(x.to_bits()),
        y: FloatBits(y.to_bits()),
        r: FloatBits(1.0f32.to_bits()),
        g: FloatBits(0.0f32.to_bits()),
        b: FloatBits(0.0f32.to_bits()),
        u: FloatBits(0.0f32.to_bits()),
        v: FloatBits(0.0f32.to_bits()),
    }
}

fn triangle() -> Vec<Vertex> {
    vec![vertex(0.0, 0.0), vertex(1.0, 0.0), vertex(0.0, 1.0)]
}

fn shaders(gl: &mut CommandQueue) -> ShaderManager {
    let vertex = Shader::load_shader("v", Some("uniform float time;\n"), ShaderStage::Vertex, gl)
        .unwrap()
        .compiled(None)
        .unwrap();
    let fragment = Shader::load_shader("f", Some("uniform sampler2D atlas;\n"), ShaderStage::Fragment, gl)
        .unwrap()
        .compiled(None)
        .unwrap();
    let mut step = Shader::new(ShaderIdentifier::Default, vertex, fragment, gl)
        .unwrap()
        .linked(None, gl)
        .unwrap();
    let mut next = 20;
    let shader = loop {
        match step {
            LinkStep::Done(shader) => break shader,
            LinkStep::Query(query) => {
                next += 1;
                step = query.answer(next, gl);
            }
        }
    };
    let (manager, errors) = load_shaders(vec![Ok(shader)]);
    assert!(errors.is_empty());
    manager.ok().unwrap()
}

fn session(screen: (u32, u32)) -> (RenderCaller, CommandQueue) {
    let mut gl = CommandQueue::new();
    let shader_manager = shaders(&mut gl);
    let image = PngData { width: 2, height: 1, data: vec![1, 2, 3, 4, 5, 6], format: ColorFormat::RGB };
    let (texture_manager, errors) =
        load_textures(vec![(String::from("/atlas.png"), image)], screen, &mut gl);
    assert!(errors.is_empty());
    let caller = RenderCaller::new(screen, shader_manager, texture_manager, &mut gl)
        .ok()
        .unwrap();
    gl.take_commands();
    (caller, gl)
}

fn layout_calls() -> Vec<Command> {
    let pointer = |index: u32, components: usize, offset: u32| {
        Command::Call(Call::VertexAttribPointer {
            index,
            components,
            attrib_type: AttributeType::Float,
            normalized: false,
            stride: 28,
            offset,
        })
    };
    vec![
        Command::Call(Call::EnableVertexAttribArray { index: 0 }),
        pointer(0, 2, 0),
        Command::Call(Call::EnableVertexAttribArray { index: 1 }),
        pointer(1, 3, 8),
        Command::Call(Call::EnableVertexAttribArray { index: 2 }),
        pointer(2, 2, 20),
    ]
}

#[test]
fn vertex_pack_without_elements_has_none() {
    let pack = VertexPack::new(triangle(), None);
    assert_eq!(pack.vertices, triangle());
    assert!(pack.elements.is_empty());
    let pack = VertexPack::new(triangle(), Some(vec![0, 1, 2]));
    assert_eq!(pack.elements, vec![0, 1, 2]);
}

#[test]
fn session_starts_with_the_buffer_slots() {
    let mut gl = CommandQueue::new();
    let shader_manager = shaders(&mut gl);
    gl.take_commands();
    let caller = RenderCaller::new((800, 600), shader_manager, TextureManager::new(), &mut gl)
        .ok()
        .unwrap();
    assert_eq!(caller.get_vbo_count(), 100);
    assert_eq!(caller.get_screen_dimensions(), (800, 600));
    assert_eq!(caller.get_vertex_array().get_size(0), Ok(0));
    assert_eq!(caller.get_shader_manager().get_active_shader_name(), None);
    assert!(!caller.get_texture_manager().contains_texture("atlas"));
    assert_eq!(gl.commands().len(), 1004);
    assert_eq!(gl.commands()[0], Command::Call(Call::GenVertexArray { array: 4 }));
}

#[test]
fn session_does_not_start_without_handles_for_the_slots() {
    let mut gl = CommandQueue::new();
    let shader_manager = shaders(&mut gl);
    gl.take_commands();
    gl.reserve_handles(gl.free_handles() - 200);
    let result = RenderCaller::new((800, 600), shader_manager, TextureManager::new(), &mut gl);
    assert_eq!(result.err(), Some(GraphicsError::OutOfHandles));
    assert!(gl.commands().is_empty());
}

#[test]
fn clearing_nothing_is_refused() {
    let (caller, mut gl) = session((800, 600));
    assert_eq!(caller.clear_buffers(false, false, &mut gl), Err(GraphicsError::NoOpClear));
    assert!(gl.commands().is_empty());
    assert_eq!(caller.clear_buffers(true, false, &mut gl), Ok(()));
    assert_eq!(caller.clear_buffers(false, true, &mut gl), Ok(()));
    assert_eq!(caller.clear_buffers(true, true, &mut gl), Ok(()));
    assert_eq!(
        *gl.commands(),
        vec![
            Command::Call(Call::Clear { color: true, depth: false }),
            Command::Call(Call::Clear { color: false, depth: true }),
            Command::Call(Call::Clear { color: true, depth: true }),
        ]
    );
}

#[test]
fn pack_fills_the_vertices_and_then_the_indices() {
    let (mut caller, mut gl) = session((800, 600));
    let pack = VertexPack::new(triangle(), Some(vec![0, 1, 2]));
    assert_eq!(caller.pack(3, pack, &mut gl), Ok(()));
    assert_eq!(caller.get_vertex_array().get_size(3), Ok(3));
    let array = 5;
    assert_eq!(
        *gl.commands(),
        vec![
            Command::Call(Call::BindBuffer { target: BufferTarget::Array, buffer: array + 2 + 6 }),
            Command::VertexData { vertices: triangle() },
            Command::Call(Call::BindBuffer {
                target: BufferTarget::ElementArray,
                buffer: array + 1 + 6
            }),
            Command::IndexData { indices: vec![0, 1, 2] },
            Command::Call(Call::BindBuffer { target: BufferTarget::ElementArray, buffer: 0 }),
        ]
    );
}

#[test]
fn pack_and_clear_refuse_a_slot_beyond_the_pool() {
    let (mut caller, mut gl) = session((800, 600));
    let refused = Err(GraphicsError::SlotOutOfRange { slot: 100, capacity: 100 });
    assert_eq!(caller.pack(100, VertexPack::new(triangle(), None), &mut gl), refused);
    assert_eq!(caller.clear(100, &mut gl), refused);
    assert!(gl.commands().is_empty());
    assert_eq!(caller.pack(99, VertexPack::new(triangle(), None), &mut gl), Ok(()));
    assert_eq!(caller.get_vertex_array().get_size(99), Ok(3));
    assert_eq!(caller.clear(99, &mut gl), Ok(()));
    assert_eq!(caller.get_vertex_array().get_size(99), Ok(0));
}

#[test]
fn frame_protocol_runs_in_order() {
    let (mut caller, mut gl) = session((800, 600));
    assert_eq!(caller.clear_buffers(true, true, &mut gl), Ok(()));
    assert_eq!(caller.pack(0, VertexPack::new(triangle(), None), &mut gl), Ok(()));
    caller.choose_shader(ShaderIdentifier::Default, &mut gl);
    let mut data = UniformData::new();
    data.float(FloatBits(0.5f32.to_bits()), "time");
    data.texture("/atlas.png", "atlas");
    assert_eq!(caller.uniforms(&data, &mut gl), Ok(vec![]));
    caller.render(0, &mut gl);

    let mut expected = vec![
        Command::Call(Call::Clear { color: true, depth: true }),
        Command::Call(Call::BindBuffer { target: BufferTarget::Array, buffer: 7 }),
        Command::VertexData { vertices: triangle() },
        Command::Call(Call::BindBuffer { target: BufferTarget::ElementArray, buffer: 6 }),
        Command::IndexData { indices: vec![] },
        Command::Call(Call::BindBuffer { target: BufferTarget::ElementArray, buffer: 0 }),
        Command::Call(Call::UseProgram { program: 3 }),
        Command::Call(Call::Uniform {
            location: 21,
            value: UniformValue::Float(FloatBits(0.5f32.to_bits())),
        }),
        Command::Call(Call::ActiveTexture { unit: 0 }),
        Command::Call(Call::BindTexture { texture: 4 }),
        Command::Call(Call::Uniform { location: 22, value: UniformValue::Int(0) }),
        Command::Call(Call::BindVertexArray { array: 5 }),
        Command::Call(Call::BindBuffer { target: BufferTarget::Array, buffer: 7 }),
    ];
    expected.extend(layout_calls());
    expected.push(Command::Call(Call::DrawArrays { count: 3 }));
    assert_eq!(*gl.commands(), expected);
}

#[test]
fn uniforms_before_a_shader_is_chosen_are_refused() {
    let (caller, mut gl) = session((800, 600));
    let mut data = UniformData::new();
    data.float(FloatBits(0), "time");
    assert_eq!(caller.uniforms(&data, &mut gl), Err(GraphicsError::NoBoundShaderError));
    assert!(gl.commands().is_empty());
}

#[test]
fn compute_pass_writes_into_the_texture_of_the_name() {
    let (caller, mut gl) = session((800, 600));
    assert_eq!(caller.dispatch_compute("/atlas.png", (8, 4, 1), &mut gl), Ok(()));
    assert_eq!(
        *gl.commands(),
        vec![
            Command::Call(Call::BindImageTexture {
                unit: 0,
                texture: 4,
                internal_format: InternalFormat::RGB8
            }),
            Command::Call(Call::DispatchCompute { x: 8, y: 4, z: 1 }),
        ]
    );
    gl.take_commands();
    assert_eq!(
        caller.dispatch_compute("sky", (8, 4, 1), &mut gl),
        Err(GraphicsError::TextureNotFound { name: String::from("sky") })
    );
    assert!(gl.commands().is_empty());
}

#[test]
fn session_resize_keeps_the_new_size_and_recreates_screen_textures() {
    let mut gl = CommandQueue::new();
    let shader_manager = shaders(&mut gl);
    let mut texture_manager = TextureManager::new();
    let frame =
        Texture::new(None, ColorFormat::RGBA, InternalFormat::RGBA8, "frame", (800, 600), &mut gl)
            .unwrap();
    let fixed = Texture::new(
        Some((16, 16)),
        ColorFormat::RGB,
        InternalFormat::RGB8,
        "fixed",
        (800, 600),
        &mut gl,
    )
    .unwrap();
    assert_eq!(texture_manager.add_texture(frame, &mut gl), Ok(()));
    assert_eq!(texture_manager.add_texture(fixed, &mut gl), Ok(()));
    let mut caller = RenderCaller::new((800, 600), shader_manager, texture_manager, &mut gl)
        .ok()
        .unwrap();
    gl.take_commands();

    caller.update_screen_dimensions((1280, 720), &mut gl);
    assert_eq!(caller.get_screen_dimensions(), (1280, 720));
    let frame = caller.get_texture_manager().get_texture("frame").unwrap();
    assert_eq!((frame.metadata.width, frame.metadata.height), (1280, 720));
    let fixed = caller.get_texture_manager().get_texture("fixed").unwrap();
    assert_eq!((fixed.metadata.width, fixed.metadata.height), (16, 16));
    assert_eq!(gl.commands().len(), 10);
    assert_eq!(gl.commands()[0], Command::Call(Call::DeleteTexture { texture: 4 }));
    assert_eq!(
        gl.commands()[8],
        Command::Call(Call::AllocateImage {
            internal_format: InternalFormat::RGBA8,
            width: 1280,
            height: 720,
            format: ColorFormat::RGBA
        })
    );
}

#[test]
fn ending_the_session_gives_up_slots_then_programs_then_textures() {
    let (caller, mut gl) = session((800, 600));
    caller.delete(&mut gl);
    let commands = gl.commands();
    assert_eq!(commands.len(), 201 + 1 + 1);
    assert_eq!(commands[0], Command::Call(Call::DeleteVertexArray { array: 5 }));
    assert_eq!(commands[1], Command::Call(Call::DeleteBuffer { buffer: 7 }));
    assert_eq!(commands[200], Command::Call(Call::DeleteBuffer { buffer: 204 }));
    assert_eq!(commands[201], Command::Call(Call::DeleteProgram { program: 3 }));
    assert_eq!(commands[202], Command::Call(Call::DeleteTexture { texture: 4 }));
}

#[test]
fn renderer_draws_the_vertices_of_a_frame_as_points() {
    let mut gl = CommandQueue::new();
    let shader_manager = shaders(&mut gl);
    let mut renderer = Renderer::new((800, 600), shader_manager, TextureManager::new(), &mut gl)
        .ok()
        .unwrap();
    gl.take_commands();

    renderer.render(triangle(), &mut gl);
    let mut frame = vec![
        Command::Call(Call::Clear { color: true, depth: true }),
        Command::Call(Call::BindBuffer { target: BufferTarget::Array, buffer: 6 }),
        Command::VertexData { vertices: triangle() },
        Command::Call(Call::BindBuffer { target: BufferTarget::ElementArray, buffer: 5 }),
        Command::IndexData { indices: vec![] },
        Command::Call(Call::BindBuffer { target: BufferTarget::ElementArray, buffer: 0 }),
        Command::Call(Call::UseProgram { program: 3 }),
        Command::Call(Call::BindVertexArray { array: 4 }),
        Command::Call(Call::BindBuffer { target: BufferTarget::Array, buffer: 6 }),
    ];
    frame.extend(layout_calls());
    frame.push(Command::Call(Call::DrawArrays { count: 3 }));
    assert_eq!(gl.take_commands(), frame);

    renderer.render(triangle(), &mut gl);
    frame.insert(6, Command::Call(Call::UseProgram { program: 0 }));
    assert_eq!(gl.take_commands(), frame);
    assert_eq!(renderer.get_render_caller().get_vertex_array().get_size(0), Ok(3));
}

#[test]
fn renderer_draws_nothing_for_an_empty_frame() {
    let mut gl = CommandQueue::new();
    let shader_manager = shaders(&mut gl);
    let mut renderer = Renderer::new((800, 600), shader_manager, TextureManager::new(), &mut gl)
        .ok()
        .unwrap();
    gl.take_commands();
    renderer.render(vec![], &mut gl);
    assert_eq!(
        *gl.commands(),
        vec![
            Command::Call(Call::Clear { color: true, depth: true }),
            Command::Call(Call::BindBuffer { target: BufferTarget::Array, buffer: 6 }),
            Command::VertexData { vertices: vec![] },
            Command::Call(Call::BindBuffer { target: BufferTarget::ElementArray, buffer: 5 }),
            Command::IndexData { indices: vec![] },
            Command::Call(Call::BindBuffer { target: BufferTarget::ElementArray, buffer: 0 }),
            Command::Call(Call::UseProgram { program: 3 }),
        ]
    );
}

#[test]
fn renderer_forwards_a_resize() {
    let mut gl = CommandQueue::new();
    let shader_manager = shaders(&mut gl);
    let mut texture_manager = TextureManager::new();
    let frame =
        Texture::new(None, ColorFormat::RGBA, InternalFormat::RGBA8, "frame", (800, 600), &mut gl)
            .unwrap();
    assert_eq!(texture_manager.add_texture(frame, &mut gl), Ok(()));
    let mut renderer = Renderer::new((800, 600), shader_manager, texture_manager, &mut gl)
        .ok()
        .unwrap();
    renderer.update_screen_dimensions((10, 20), &mut gl);
    let caller = renderer.get_render_caller();
    assert_eq!(caller.get_screen_dimensions(), (10, 20));
    let frame = caller.get_texture_manager().get_texture("frame").unwrap();
    assert_eq!((frame.metadata.width, frame.metadata.height), (10, 20));
}
