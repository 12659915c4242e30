use render_core::{BufferTarget, Call, Command, CommandQueue};

#[test]
fn new_queue_is_empty_and_starts_handles_at_one() {
    let mut gl = CommandQueue::new();
    assert!(gl.commands().is_empty());
    assert_eq!(gl.free_handles(), u32::MAX - 1);
    assert_eq!(gl.reserve_handles(1), Some(1));
    assert_eq!(gl.reserve_handles(3), Some(2));
    assert_eq!(gl.reserve_handles(1), Some(5));
    assert_eq!(gl.free_handles(), u32::MAX - 6);
    assert!(gl.commands().is_empty());
}

#[test]
fn queue_keeps_calls_in_order() {
    let mut gl = CommandQueue::new();
    gl.call(Call::BindVertexArray { array: 7 });
    gl.record(Command::IndexData { indices: vec![2, 1, 0] });
    gl.call(Call::BindBuffer { target: BufferTarget::ElementArray, buffer: 0 });
    assert_eq!(
        *gl.commands(),
        vec![
            Command::Call(Call::BindVertexArray { array: 7 }),
            Command::IndexData { indices: vec![2, 1, 0] },
            Command::Call(Call::BindBuffer { target: BufferTarget::ElementArray, buffer: 0 }),
        ]
    );
}

#[test]
fn taking_the_commands_empties_the_queue_and_keeps_the_handles() {
    let mut gl = CommandQueue::new();
    assert_eq!(gl.reserve_handles(2), Some(1));
    gl.call(Call::Clear { color: true, depth: false });
    let taken = gl.take_commands();
    assert_eq!(taken, vec![Command::Call(Call::Clear { color: true, depth: false })]);
    assert!(gl.commands().is_empty());
    assert_eq!(gl.reserve_handles(1), Some(3));
}

#[test]
fn queue_hands_out_nothing_beyond_its_last_handle() {
    let mut gl = CommandQueue::new();
    assert_eq!(gl.reserve_handles(u32::MAX), None);
    assert_eq!(gl.free_handles(), u32::MAX - 1);
    assert_eq!(gl.reserve_handles(u32::MAX - 2), Some(1));
    assert_eq!(gl.free_handles(), 1);
    assert_eq!(gl.reserve_handles(2), None);
    assert_eq!(gl.reserve_handles(1), Some(u32::MAX - 1));
    assert_eq!(gl.free_handles(), 0);
    assert_eq!(gl.reserve_handles(1), None);
    assert_eq!(gl.reserve_handles(0), Some(u32::MAX));
}
