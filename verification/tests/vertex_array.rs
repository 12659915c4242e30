use render_core::{
    ArrayBuffer, AttributeType, BufferTarget, Call, Command, CommandQueue, ElementBuffer,
    FloatBits, GraphicsError, Vertex, VertexArray, V2C3UV,
};

fn vertex(x: f32, y: f32) -> Vertex {
    V2C3UV {
        x: FloatBits(x.to_bits()),
        y: FloatBits(y.to_bits()),
        r: FloatBits(1.0f32.to_bits()),
        g: FloatBits(0.0f32.to_bits()),
        b: FloatBits(0.0f32.to_bits()),
        u: FloatBits(0.0f32.to_bits()),
        v: FloatBits(0.0f32.to_bits()),
    }
}

fn triangle() -> Vec<Vertex> {
    vec![vertex(0.0, 0.0), vertex(1.0, 0.0), vertex(0.0, 1.0)]
}

fn new_pool() -> (VertexArray, CommandQueue) {
    let mut gl = CommandQueue::new();
    let pool = VertexArray::new(&mut gl).unwrap();
    gl.take_commands();
    (pool, gl)
}

fn layout_calls() -> Vec<Command> {
    let pointer = |index: u32, components: usize, offset: u32| {
        Command::Call(Call::VertexAttribPointer {
            index,
            components,
            attrib_type: AttributeType::Float,
            normalized: false,
            stride: 28,
            offset,
        })
    };
    vec![
        Command::Call(Call::EnableVertexAttribArray { index: 0 }),
        pointer(0, 2, 0),
        Command::Call(Call::EnableVertexAttribArray { index: 1 }),
        pointer(1, 3, 8),
        Command::Call(Call::EnableVertexAttribArray { index: 2 }),
        pointer(2, 2, 20),
    ]
}

#[test]
fn array_buffer_fill_binds_and_replaces_the_contents() {
    let mut gl = CommandQueue::new();
    let mut buffer = ArrayBuffer::new(&mut gl).unwrap();
    assert_eq!(buffer.get_size(), 0);
    assert_eq!(buffer.get_stride(), 28);
    buffer.fill(triangle(), &mut gl);
    assert_eq!(buffer.get_size(), 3);
    buffer.bind(&mut gl);
    buffer.delete(&mut gl);
    assert_eq!(
        *gl.commands(),
        vec![
            Command::Call(Call::GenBuffer { buffer: 1 }),
            Command::Call(Call::BindBuffer { target: BufferTarget::Array, buffer: 1 }),
            Command::VertexData { vertices: triangle() },
            Command::Call(Call::BindBuffer { target: BufferTarget::Array, buffer: 1 }),
            Command::Call(Call::DeleteBuffer { buffer: 1 }),
        ]
    );
}

#[test]
fn element_buffer_fill_binds_replaces_and_unbinds() {
    let mut gl = CommandQueue::new();
    let mut buffer = ElementBuffer::new(&mut gl).unwrap();
    assert_eq!(buffer.get_size(), 0);
    buffer.fill(vec![0, 1, 2, 2, 1, 3], &mut gl);
    assert_eq!(buffer.get_size(), 6);
    buffer.bind(&mut gl);
    buffer.delete(&mut gl);
    assert_eq!(
        *gl.commands(),
        vec![
            Command::Call(Call::GenBuffer { buffer: 1 }),
            Command::Call(Call::BindBuffer { target: BufferTarget::ElementArray, buffer: 1 }),
            Command::IndexData { indices: vec![0, 1, 2, 2, 1, 3] },
            Command::Call(Call::BindBuffer { target: BufferTarget::ElementArray, buffer: 0 }),
            Command::Call(Call::BindBuffer { target: BufferTarget::ElementArray, buffer: 1 }),
            Command::Call(Call::DeleteBuffer { buffer: 1 }),
        ]
    );
}

#[test]
fn buffers_are_not_created_without_a_free_handle() {
    let mut gl = CommandQueue::new();
    gl.reserve_handles(u32::MAX - 1);
    assert_eq!(ArrayBuffer::new(&mut gl).err(), Some(GraphicsError::OutOfHandles));
    assert_eq!(ElementBuffer::new(&mut gl).err(), Some(GraphicsError::OutOfHandles));
    assert!(gl.commands().is_empty());
}

#[test]
fn pool_is_created_with_a_hundred_empty_slots() {
    let mut gl = CommandQueue::new();
    let pool = VertexArray::new(&mut gl).unwrap();
    assert_eq!(pool.get_vbo_count(), 100);
    for slot in 0..100 {
        assert_eq!(pool.get_size(slot), Ok(0));
    }
    assert_eq!(gl.free_handles(), u32::MAX - 202);

    let commands = gl.commands();
    assert_eq!(commands.len(), 2 + 100 * 10 + 2);
    assert_eq!(commands[0], Command::Call(Call::GenVertexArray { array: 1 }));
    assert_eq!(commands[1], Command::Call(Call::BindVertexArray { array: 1 }));
    let mut first_slot = vec![
        Command::Call(Call::GenBuffer { buffer: 2 }),
        Command::Call(Call::GenBuffer { buffer: 3 }),
        Command::Call(Call::BindBuffer { target: BufferTarget::Array, buffer: 3 }),
    ];
    first_slot.extend(layout_calls());
    first_slot.push(Command::Call(Call::BindBuffer { target: BufferTarget::Array, buffer: 0 }));
    assert_eq!(commands[2..12].to_vec(), first_slot);
    assert_eq!(commands[992], Command::Call(Call::GenBuffer { buffer: 200 }));
    assert_eq!(commands[993], Command::Call(Call::GenBuffer { buffer: 201 }));
    assert_eq!(
        commands[994],
        Command::Call(Call::BindBuffer { target: BufferTarget::Array, buffer: 201 })
    );
    assert_eq!(
        commands[1002],
        Command::Call(Call::BindBuffer { target: BufferTarget::Array, buffer: 0 })
    );
    assert_eq!(commands[1003], Command::Call(Call::BindVertexArray { array: 0 }));
}

#[test]
fn pool_is_not_created_with_too_few_handles() {
    let mut gl = CommandQueue::new();
    gl.reserve_handles(u32::MAX - 1 - 200);
    assert_eq!(gl.free_handles(), 200);
    assert_eq!(VertexArray::new(&mut gl).err(), Some(GraphicsError::OutOfHandles));
    assert!(gl.commands().is_empty());
    assert_eq!(gl.free_handles(), 200);

    let mut gl = CommandQueue::new();
    gl.reserve_handles(u32::MAX - 1 - 201);
    assert!(VertexArray::new(&mut gl).is_ok());
    assert_eq!(gl.free_handles(), 0);
}

#[test]
fn fill_sets_the_count_of_the_slot_to_the_number_of_vertices() {
    let (mut pool, mut gl) = new_pool();
    for slot in [0usize, 1, 42, 99] {
        assert_eq!(pool.fill_vbo(slot, triangle(), &mut gl), Ok(()));
        assert_eq!(pool.get_size(slot), Ok(3));
    }
    assert_eq!(pool.fill_vbo(42, vec![vertex(0.5, 0.5)], &mut gl), Ok(()));
    assert_eq!(pool.get_size(42), Ok(1));
    assert_eq!(pool.fill_vbo(42, vec![], &mut gl), Ok(()));
    assert_eq!(pool.get_size(42), Ok(0));
    assert_eq!(pool.get_size(0), Ok(3));
    assert_eq!(pool.get_size(2), Ok(0));
}

#[test]
fn fill_replaces_the_contents_of_the_vertex_buffer_of_the_slot() {
    let (mut pool, mut gl) = new_pool();
    assert_eq!(pool.fill_vbo(1, triangle(), &mut gl), Ok(()));
    assert_eq!(
        *gl.commands(),
        vec![
            Command::Call(Call::BindBuffer { target: BufferTarget::Array, buffer: 5 }),
            Command::VertexData { vertices: triangle() },
        ]
    );
}

#[test]
fn fill_indices_replaces_the_contents_of_the_index_buffer_of_the_slot() {
    let (mut pool, mut gl) = new_pool();
    assert_eq!(pool.fill_ebo(1, vec![0, 1, 2], &mut gl), Ok(()));
    assert_eq!(
        *gl.commands(),
        vec![
            Command::Call(Call::BindBuffer { target: BufferTarget::ElementArray, buffer: 4 }),
            Command::IndexData { indices: vec![0, 1, 2] },
            Command::Call(Call::BindBuffer { target: BufferTarget::ElementArray, buffer: 0 }),
        ]
    );
    assert_eq!(pool.get_size(1), Ok(0));
}

#[test]
fn clear_is_a_fill_with_no_vertices() {
    let (mut pool, mut gl) = new_pool();
    assert_eq!(pool.fill_vbo(0, triangle(), &mut gl), Ok(()));
    gl.take_commands();
    assert_eq!(pool.clear(0, &mut gl), Ok(()));
    assert_eq!(pool.get_size(0), Ok(0));
    assert_eq!(
        *gl.commands(),
        vec![
            Command::Call(Call::BindBuffer { target: BufferTarget::Array, buffer: 3 }),
            Command::VertexData { vertices: vec![] },
        ]
    );
}

#[test]
fn slot_beyond_the_pool_is_refused_and_nothing_is_queued() {
    let (mut pool, mut gl) = new_pool();
    let refused = Err(GraphicsError::SlotOutOfRange { slot: 100, capacity: 100 });
    assert_eq!(pool.fill_vbo(100, triangle(), &mut gl), refused);
    assert_eq!(pool.fill_ebo(100, vec![0, 1, 2], &mut gl), refused);
    assert_eq!(pool.clear(100, &mut gl), refused);
    assert_eq!(pool.bind(100, &mut gl), refused);
    assert_eq!(pool.draw(100, &mut gl), refused);
    assert_eq!(
        pool.get_size(100),
        Err(GraphicsError::SlotOutOfRange { slot: 100, capacity: 100 })
    );
    assert_eq!(
        pool.draw(usize::MAX, &mut gl),
        Err(GraphicsError::SlotOutOfRange { slot: usize::MAX, capacity: 100 })
    );
    assert!(gl.commands().is_empty());
    assert_eq!(gl.free_handles(), u32::MAX - 202);
}

#[test]
fn slot_without_geometry_is_not_drawn() {
    let (mut pool, mut gl) = new_pool();
    assert_eq!(pool.draw(0, &mut gl), Err(GraphicsError::EmptyDraw { slot: 0 }));
    assert_eq!(pool.fill_vbo(0, triangle(), &mut gl), Ok(()));
    assert_eq!(pool.clear(0, &mut gl), Ok(()));
    gl.take_commands();
    assert_eq!(pool.draw(0, &mut gl), Err(GraphicsError::EmptyDraw { slot: 0 }));
    assert!(gl.commands().is_empty());
}

#[test]
fn slot_without_indices_is_drawn_as_points() {
    let (mut pool, mut gl) = new_pool();
    assert_eq!(pool.fill_vbo(0, triangle(), &mut gl), Ok(()));
    assert_eq!(pool.fill_ebo(0, vec![], &mut gl), Ok(()));
    gl.take_commands();
    assert_eq!(pool.draw(0, &mut gl), Ok(()));
    let mut expected = vec![
        Command::Call(Call::BindVertexArray { array: 1 }),
        Command::Call(Call::BindBuffer { target: BufferTarget::Array, buffer: 3 }),
    ];
    expected.extend(layout_calls());
    expected.push(Command::Call(Call::DrawArrays { count: 3 }));
    assert_eq!(*gl.commands(), expected);
}

#[test]
fn slot_with_indices_is_drawn_by_its_indices() {
    let (mut pool, mut gl) = new_pool();
    assert_eq!(pool.fill_vbo(0, triangle(), &mut gl), Ok(()));
    assert_eq!(pool.fill_ebo(0, vec![0, 1, 2], &mut gl), Ok(()));
    gl.take_commands();
    assert_eq!(pool.draw(0, &mut gl), Ok(()));
    let mut expected = vec![
        Command::Call(Call::BindVertexArray { array: 1 }),
        Command::Call(Call::BindBuffer { target: BufferTarget::Array, buffer: 3 }),
    ];
    expected.extend(layout_calls());
    expected.push(Command::Call(Call::BindBuffer { target: BufferTarget::ElementArray, buffer: 2 }));
    expected.push(Command::Call(Call::DrawElements { count: 3 }));
    assert_eq!(*gl.commands(), expected);
}

#[test]
fn bind_leaves_out_an_empty_index_buffer() {
    let (mut pool, mut gl) = new_pool();
    assert_eq!(pool.bind(7, &mut gl), Ok(()));
    let mut expected = vec![
        Command::Call(Call::BindVertexArray { array: 1 }),
        Command::Call(Call::BindBuffer { target: BufferTarget::Array, buffer: 17 }),
    ];
    expected.extend(layout_calls());
    assert_eq!(*gl.commands(), expected);

    gl.take_commands();
    assert_eq!(pool.fill_ebo(7, vec![5], &mut gl), Ok(()));
    gl.take_commands();
    assert_eq!(pool.bind(7, &mut gl), Ok(()));
    expected.push(Command::Call(Call::BindBuffer { target: BufferTarget::ElementArray, buffer: 16 }));
    assert_eq!(*gl.commands(), expected);
}

#[test]
fn fills_and_draws_of_different_slots_can_alternate() {
    let (mut pool, mut gl) = new_pool();
    assert_eq!(pool.fill_vbo(0, triangle(), &mut gl), Ok(()));
    assert_eq!(pool.fill_vbo(1, vec![vertex(0.0, 0.0)], &mut gl), Ok(()));
    assert_eq!(pool.draw(0, &mut gl), Ok(()));
    assert_eq!(pool.fill_vbo(0, vec![vertex(0.0, 0.0), vertex(1.0, 1.0)], &mut gl), Ok(()));
    assert_eq!(pool.draw(1, &mut gl), Ok(()));
    assert_eq!(pool.draw(0, &mut gl), Ok(()));
    let draws: Vec<&Command> = gl
        .commands()
        .iter()
        .filter(|command| matches!(command, Command::Call(Call::DrawArrays { .. })))
        .collect();
    assert_eq!(
        draws,
        vec![
            &Command::Call(Call::DrawArrays { count: 3 }),
            &Command::Call(Call::DrawArrays { count: 1 }),
            &Command::Call(Call::DrawArrays { count: 2 }),
        ]
    );
}

#[test]
fn deleting_the_pool_gives_up_the_vertex_array_and_every_buffer() {
    let (pool, mut gl) = new_pool();
    pool.delete(&mut gl);
    let commands = gl.commands();
    assert_eq!(commands.len(), 201);
    assert_eq!(commands[0], Command::Call(Call::DeleteVertexArray { array: 1 }));
    for slot in 0..100u32 {
        assert_eq!(
            commands[1 + slot as usize],
            Command::Call(Call::DeleteBuffer { buffer: 3 + 2 * slot })
        );
        assert_eq!(
            commands[101 + slot as usize],
            Command::Call(Call::DeleteBuffer { buffer: 2 + 2 * slot })
        );
    }
}
