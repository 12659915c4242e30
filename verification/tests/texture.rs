use render_core::{
    Call, ColorFormat, Command, CommandQueue, GraphicsError, InternalFormat, Texture,
    TextureManager, TextureParameter,
};

fn creation_calls(
    id: u32,
    internal_format: InternalFormat,
    width: u32,
    height: u32,
    format: ColorFormat,
) -> Vec<Command> {
    vec![
        Command::Call(Call::GenTexture { texture: id }),
        Command::Call(Call::BindTexture { texture: id }),
        Command::Call(Call::TexParameter { parameter: TextureParameter::MinFilterNearest }),
        Command::Call(Call::TexParameter { parameter: TextureParameter::MagFilterNearest }),
        Command::Call(Call::TexParameter { parameter: TextureParameter::WrapSClampToEdge }),
        Command::Call(Call::TexParameter { parameter: TextureParameter::WrapTClampToEdge }),
        Command::Call(Call::TexParameter { parameter: TextureParameter::CompareFuncLessEqual }),
        Command::Call(Call::AllocateImage { internal_format, width, height, format }),
        Command::Call(Call::BindTexture { texture: 0 }),
    ]
}

fn rgb_texture(name: &str, gl: &mut CommandQueue) -> Texture {
    Texture::new(Some((10, 10)), ColorFormat::RGB, InternalFormat::RGB8, name, (800, 600), gl)
        .unwrap()
}

fn screen_texture(name: &str, screen: (u32, u32), gl: &mut CommandQueue) -> Texture {
    Texture::new(None, ColorFormat::RGBA, InternalFormat::RGBA8, name, screen, gl).unwrap()
}

#[test]
fn internal_formats_have_their_texel_sizes() {
    assert_eq!(InternalFormat::RGB8.bytes(), 3);
    assert_eq!(InternalFormat::RGBA8.bytes(), 4);
    assert_eq!(InternalFormat::D16.bytes(), 2);
    assert_eq!(InternalFormat::for_format(ColorFormat::RGB), InternalFormat::RGB8);
    assert_eq!(InternalFormat::for_format(ColorFormat::RGBA), InternalFormat::RGBA8);
    assert_eq!(InternalFormat::for_format(ColorFormat::D), InternalFormat::D16);
}

#[test]
fn texture_with_dimensions_keeps_them() {
    let mut gl = CommandQueue::new();
    let texture = rgb_texture("atlas", &mut gl);
    assert_eq!(texture.get_id(), 1);
    assert_eq!(texture.id, 1);
    assert!(!texture.filled);
    assert_eq!(texture.metadata.format, ColorFormat::RGB);
    assert_eq!(texture.metadata.internal_format, InternalFormat::RGB8);
    assert_eq!(texture.metadata.width, 10);
    assert_eq!(texture.metadata.height, 10);
    assert_eq!(texture.metadata.name, "atlas");
    assert!(!texture.metadata.screen_dependant_dimensions);
    assert_eq!(
        *gl.commands(),
        creation_calls(1, InternalFormat::RGB8, 10, 10, ColorFormat::RGB)
    );
}

#[test]
fn texture_without_dimensions_takes_the_size_of_the_screen() {
    let mut gl = CommandQueue::new();
    gl.reserve_handles(4);
    let texture = screen_texture("frame", (1024, 768), &mut gl);
    assert_eq!(texture.get_id(), 5);
    assert_eq!(texture.metadata.width, 1024);
    assert_eq!(texture.metadata.height, 768);
    assert!(texture.metadata.screen_dependant_dimensions);
    assert_eq!(
        *gl.commands(),
        creation_calls(5, InternalFormat::RGBA8, 1024, 768, ColorFormat::RGBA)
    );
}

#[test]
fn texture_is_not_created_without_a_free_handle() {
    let mut gl = CommandQueue::new();
    gl.reserve_handles(u32::MAX - 1);
    let result =
        Texture::new(None, ColorFormat::RGB, InternalFormat::RGB8, "late", (4, 4), &mut gl);
    assert_eq!(result.err(), Some(GraphicsError::OutOfHandles));
    assert!(gl.commands().is_empty());
}

#[test]
fn fill_takes_exactly_one_texel_per_pixel() {
    let mut gl = CommandQueue::new();
    let mut texture = rgb_texture("atlas", &mut gl);
    gl.take_commands();

    assert_eq!(
        texture.fill(vec![0; 299], &mut gl),
        Err(GraphicsError::SizeMismatch { expected: 300, actual: 299 })
    );
    assert_eq!(
        texture.fill(vec![0; 301], &mut gl),
        Err(GraphicsError::SizeMismatch { expected: 300, actual: 301 })
    );
    assert_eq!(
        texture.fill(vec![], &mut gl),
        Err(GraphicsError::SizeMismatch { expected: 300, actual: 0 })
    );
    assert!(!texture.filled);
    assert!(gl.commands().is_empty());

    let pixels: Vec<u8> = (0..300).map(|i| (i % 251) as u8).collect();
    assert_eq!(texture.fill(pixels.clone(), &mut gl), Ok(()));
    assert!(texture.filled);
    assert_eq!(texture.metadata.width, 10);
    assert_eq!(
        *gl.commands(),
        vec![
            Command::Call(Call::BindTexture { texture: 1 }),
            Command::ImageData { format: ColorFormat::RGB, width: 10, height: 10, pixels },
            Command::Call(Call::BindTexture { texture: 0 }),
        ]
    );
}

#[test]
fn fill_counts_the_bytes_of_the_internal_format() {
    let mut gl = CommandQueue::new();
    let mut rgba =
        Texture::new(Some((3, 5)), ColorFormat::RGBA, InternalFormat::RGBA8, "a", (1, 1), &mut gl)
            .unwrap();
    assert_eq!(rgba.fill(vec![7; 60], &mut gl), Ok(()));
    assert_eq!(
        rgba.fill(vec![7; 45], &mut gl),
        Err(GraphicsError::SizeMismatch { expected: 60, actual: 45 })
    );
    let mut depth =
        Texture::new(Some((3, 5)), ColorFormat::D, InternalFormat::D16, "d", (1, 1), &mut gl)
            .unwrap();
    assert_eq!(depth.fill(vec![7; 30], &mut gl), Ok(()));
    let mut empty =
        Texture::new(Some((0, 5)), ColorFormat::RGB, InternalFormat::RGB8, "e", (1, 1), &mut gl)
            .unwrap();
    assert_eq!(empty.fill(vec![], &mut gl), Ok(()));
    assert_eq!(
        empty.fill(vec![1], &mut gl),
        Err(GraphicsError::SizeMismatch { expected: 0, actual: 1 })
    );
}

#[test]
fn fill_of_the_largest_texture_does_not_wrap_around() {
    let mut gl = CommandQueue::new();
    let mut texture = Texture::new(
        Some((u32::MAX, u32::MAX)),
        ColorFormat::RGBA,
        InternalFormat::RGBA8,
        "huge",
        (1, 1),
        &mut gl,
    )
    .unwrap();
    let expected = (u32::MAX as u128) * (u32::MAX as u128) * 4;
    assert_eq!(expected, 73786976260478468100);
    assert_eq!(
        texture.fill(vec![0; 4], &mut gl),
        Err(GraphicsError::SizeMismatch { expected, actual: 4 })
    );
}

#[test]
fn texture_bind_and_delete_name_the_texture() {
    let mut gl = CommandQueue::new();
    let texture = rgb_texture("atlas", &mut gl);
    gl.take_commands();
    texture.bind(&mut gl);
    texture.delete(&mut gl);
    assert_eq!(
        *gl.commands(),
        vec![
            Command::Call(Call::BindTexture { texture: 1 }),
            Command::Call(Call::DeleteTexture { texture: 1 }),
        ]
    );
}

#[test]
fn registry_finds_textures_by_name() {
    let mut gl = CommandQueue::new();
    let mut manager = TextureManager::new();
    assert!(!manager.contains_texture("atlas"));
    assert_eq!(manager.add_texture(rgb_texture("atlas", &mut gl), &mut gl), Ok(()));
    assert_eq!(manager.add_texture(screen_texture("frame", (64, 32), &mut gl), &mut gl), Ok(()));
    assert!(manager.contains_texture("atlas"));
    assert!(manager.contains_texture("frame"));
    assert!(!manager.contains_texture("Atlas"));
    assert_eq!(manager.get_texture("atlas").unwrap().get_id(), 1);
    assert_eq!(manager.get_texture("frame").unwrap().get_id(), 2);
    assert_eq!(manager.get_texture("frame").unwrap().metadata.width, 64);
}

#[test]
fn registry_refuses_a_name_twice_and_gives_the_texture_up() {
    let mut gl = CommandQueue::new();
    let mut manager = TextureManager::new();
    let first = rgb_texture("atlas", &mut gl);
    assert_eq!(manager.add_texture(first, &mut gl), Ok(()));
    let second = screen_texture("atlas", (64, 32), &mut gl);
    gl.take_commands();
    assert_eq!(
        manager.add_texture(second, &mut gl),
        Err(GraphicsError::DuplicateName { name: String::from("atlas") })
    );
    assert_eq!(*gl.commands(), vec![Command::Call(Call::DeleteTexture { texture: 2 })]);
    assert_eq!(manager.get_texture("atlas").unwrap().get_id(), 1);
    assert_eq!(manager.get_texture("atlas").unwrap().metadata.width, 10);
    assert_eq!(manager.get_texture_metadata().len(), 1);
}

#[test]
fn registry_queues_nothing_for_a_texture_that_it_takes() {
    let mut gl = CommandQueue::new();
    let mut manager = TextureManager::new();
    let texture = rgb_texture("atlas", &mut gl);
    gl.take_commands();
    assert_eq!(manager.add_texture(texture, &mut gl), Ok(()));
    assert!(gl.commands().is_empty());
    assert!(manager.follows((1, 1)));
    let frame = screen_texture("frame", (64, 32), &mut gl);
    assert_eq!(manager.add_texture(frame, &mut gl), Ok(()));
    assert!(manager.follows((64, 32)));
    assert!(!manager.follows((64, 33)));
    assert!(!manager.follows((800, 600)));
}

#[test]
fn registry_reports_a_missing_texture() {
    let mut gl = CommandQueue::new();
    let mut manager = TextureManager::new();
    assert_eq!(manager.add_texture(rgb_texture("atlas", &mut gl), &mut gl), Ok(()));
    gl.take_commands();
    assert_eq!(
        manager.get_texture("sky").err(),
        Some(GraphicsError::TextureNotFound { name: String::from("sky") })
    );
    assert_eq!(
        manager.fill_texture("sky", vec![0; 300], &mut gl),
        Err(GraphicsError::TextureNotFound { name: String::from("sky") })
    );
    assert!(gl.commands().is_empty());
}

#[test]
fn registry_fills_the_texture_of_the_name() {
    let mut gl = CommandQueue::new();
    let mut manager = TextureManager::new();
    assert_eq!(manager.add_texture(rgb_texture("atlas", &mut gl), &mut gl), Ok(()));
    assert_eq!(manager.add_texture(rgb_texture("sky", &mut gl), &mut gl), Ok(()));
    gl.take_commands();
    assert_eq!(
        manager.fill_texture("sky", vec![0; 10], &mut gl),
        Err(GraphicsError::SizeMismatch { expected: 300, actual: 10 })
    );
    assert!(!manager.get_texture("sky").unwrap().filled);
    assert!(gl.commands().is_empty());
    assert_eq!(manager.fill_texture("sky", vec![9; 300], &mut gl), Ok(()));
    assert!(manager.get_texture("sky").unwrap().filled);
    assert!(!manager.get_texture("atlas").unwrap().filled);
    assert_eq!(
        *gl.commands(),
        vec![
            Command::Call(Call::BindTexture { texture: 2 }),
            Command::ImageData {
                format: ColorFormat::RGB,
                width: 10,
                height: 10,
                pixels: vec![9; 300]
            },
            Command::Call(Call::BindTexture { texture: 0 }),
        ]
    );
}

#[test]
fn registry_gives_the_metadata_of_every_texture_by_name() {
    let mut gl = CommandQueue::new();
    let mut manager = TextureManager::new();
    assert!(manager.get_texture_metadata().is_empty());
    assert_eq!(manager.add_texture(rgb_texture("atlas", &mut gl), &mut gl), Ok(()));
    assert_eq!(manager.add_texture(screen_texture("frame", (64, 32), &mut gl), &mut gl), Ok(()));
    let metadata = manager.get_texture_metadata();
    assert_eq!(metadata.len(), 2);
    let atlas = metadata.get("atlas").unwrap();
    assert_eq!(atlas.name, "atlas");
    assert_eq!((atlas.width, atlas.height), (10, 10));
    assert_eq!(atlas.internal_format, InternalFormat::RGB8);
    assert!(!atlas.screen_dependant_dimensions);
    let frame = metadata.get("frame").unwrap();
    assert_eq!(frame.name, "frame");
    assert_eq!((frame.width, frame.height), (64, 32));
    assert_eq!(frame.format, ColorFormat::RGBA);
    assert!(frame.screen_dependant_dimensions);
    assert!(metadata.get("sky").is_none());
}

#[test]
fn resize_recreates_the_textures_that_follow_the_screen() {
    let mut gl = CommandQueue::new();
    let mut manager = TextureManager::new();
    assert_eq!(manager.add_texture(rgb_texture("atlas", &mut gl), &mut gl), Ok(()));
    assert_eq!(manager.add_texture(screen_texture("frame", (800, 600), &mut gl), &mut gl), Ok(()));
    assert_eq!(manager.add_texture(rgb_texture("sky", &mut gl), &mut gl), Ok(()));
    let depth =
        Texture::new(None, ColorFormat::D, InternalFormat::D16, "depth", (800, 600), &mut gl)
            .unwrap();
    assert_eq!(manager.add_texture(depth, &mut gl), Ok(()));
    assert_eq!(manager.fill_texture("atlas", vec![1; 300], &mut gl), Ok(()));
    assert_eq!(manager.fill_texture("frame", vec![1; 800 * 600 * 4], &mut gl), Ok(()));
    gl.take_commands();
    let handles = gl.free_handles();

    manager.update_screen_dimensions((1024, 768), &mut gl);

    let frame = manager.get_texture("frame").unwrap();
    assert_eq!(frame.get_id(), 2);
    assert_eq!((frame.metadata.width, frame.metadata.height), (1024, 768));
    assert_eq!(frame.metadata.format, ColorFormat::RGBA);
    assert_eq!(frame.metadata.internal_format, InternalFormat::RGBA8);
    assert_eq!(frame.metadata.name, "frame");
    assert!(frame.metadata.screen_dependant_dimensions);
    assert!(!frame.filled);
    let depth = manager.get_texture("depth").unwrap();
    assert_eq!(depth.get_id(), 4);
    assert_eq!((depth.metadata.width, depth.metadata.height), (1024, 768));
    assert_eq!(depth.metadata.internal_format, InternalFormat::D16);

    let atlas = manager.get_texture("atlas").unwrap();
    assert_eq!(atlas.get_id(), 1);
    assert_eq!((atlas.metadata.width, atlas.metadata.height), (10, 10));
    assert_eq!(atlas.metadata.format, ColorFormat::RGB);
    assert_eq!(atlas.metadata.internal_format, InternalFormat::RGB8);
    assert_eq!(atlas.metadata.name, "atlas");
    assert!(!atlas.metadata.screen_dependant_dimensions);
    assert!(atlas.filled);
    let sky = manager.get_texture("sky").unwrap();
    assert_eq!(sky.get_id(), 3);
    assert_eq!((sky.metadata.width, sky.metadata.height), (10, 10));
    assert!(!sky.filled);

    let mut expected = vec![Command::Call(Call::DeleteTexture { texture: 2 })];
    expected.extend(creation_calls(2, InternalFormat::RGBA8, 1024, 768, ColorFormat::RGBA));
    expected.push(Command::Call(Call::DeleteTexture { texture: 4 }));
    expected.extend(creation_calls(4, InternalFormat::D16, 1024, 768, ColorFormat::D));
    assert_eq!(*gl.commands(), expected);
    assert_eq!(gl.free_handles(), handles);
}

#[test]
fn resize_without_textures_that_follow_the_screen_queues_nothing() {
    let mut gl = CommandQueue::new();
    let mut manager = TextureManager::new();
    manager.update_screen_dimensions((1, 1), &mut gl);
    assert_eq!(manager.add_texture(rgb_texture("atlas", &mut gl), &mut gl), Ok(()));
    gl.take_commands();
    manager.update_screen_dimensions((1024, 768), &mut gl);
    assert!(gl.commands().is_empty());
    assert_eq!(manager.get_texture("atlas").unwrap().metadata.width, 10);
}

#[test]
fn deleting_the_registry_gives_up_every_texture() {
    let mut gl = CommandQueue::new();
    let mut manager = TextureManager::new();
    assert_eq!(manager.add_texture(rgb_texture("atlas", &mut gl), &mut gl), Ok(()));
    assert_eq!(manager.add_texture(rgb_texture("sky", &mut gl), &mut gl), Ok(()));
    gl.take_commands();
    manager.delete(&mut gl);
    assert_eq!(
        *gl.commands(),
        vec![
            Command::Call(Call::DeleteTexture { texture: 1 }),
            Command::Call(Call::DeleteTexture { texture: 2 }),
        ]
    );
}
