use crate::backend::{CommandQueue, CommandView};
use crate::error::{error_views, GraphicsError, GraphicsErrorView};
use crate::shader::Shader;
use crate::shader_manager::ShaderManager;
use crate::texture::{texture_views, InternalFormat, Texture, TextureManager, TextureView};
use crate::uniform_scan::to_chars;
use crate::utils::{PngData, PngDataView};
use vstd::prelude::*;

verus! {

/// The programs among the outcomes of building the shader programs, in
/// order.
pub open spec fn built_shaders(outcomes: Seq<Result<Shader, GraphicsError>>) -> Seq<Shader>
    decreases outcomes.len(),
{
    if outcomes.len() == 0 {
        Seq::empty()
    } else {
        let before = built_shaders(outcomes.drop_last());
        match outcomes.last() {
            Ok(shader) => before.push(shader),
            Err(_) => before,
        }
    }
}

/// The errors among the outcomes of building the shader programs, in order.
pub open spec fn build_errors(outcomes: Seq<Result<Shader, GraphicsError>>) -> Seq<GraphicsError>
    decreases outcomes.len(),
{
    if outcomes.len() == 0 {
        Seq::empty()
    } else {
        let before = build_errors(outcomes.drop_last());
        match outcomes.last() {
            Ok(_) => before,
            Err(error) => before.push(error),
        }
    }
}

/// Makes a shader manager of the programs that were built, one outcome for
/// each identifier and in the order of the identifiers. A program that
/// failed to build is left out, and its error is given back with those of
/// the others. There is no manager unless every program was built.
pub fn load_shaders(outcomes: Vec<Result<Shader, GraphicsError>>) -> (result: (
    Result<ShaderManager, GraphicsError>,
    Vec<GraphicsError>,
))
    ensures
        result.1@ == build_errors(outcomes@),
        ShaderManager::complete(built_shaders(outcomes@)) ==> (result.0 matches Ok(manager)
            && manager.shaders() == built_shaders(outcomes@) && manager.bound() is None
            && manager.wf()),
        !ShaderManager::complete(built_shaders(outcomes@)) ==> result.0 == Err::<
            ShaderManager,
            GraphicsError,
        >(GraphicsError::IncompleteShaderSet),
{
    let mut shaders: Vec<Shader> = Vec::new();
    let mut errors: Vec<GraphicsError> = Vec::new();
    let ghost all = outcomes@;
    let mut outcomes = outcomes;
    let mut rest: Vec<Result<Shader, GraphicsError>> = Vec::new();
    // The outcomes are taken from the back, so they are turned around first.
    while outcomes.len() > 0
        invariant
            outcomes@.len() + rest@.len() == all.len(),
            forall|i: int| 0 <= i < outcomes@.len() ==> outcomes@[i] == all[i],
            forall|i: int| 0 <= i < rest@.len() ==> rest@[i] == all[all.len() - 1 - i],
        decreases outcomes@.len(),
    {
        match outcomes.pop() {
            Some(outcome) => rest.push(outcome),
            None => {},
        }
    }
    assert(all.take(0) =~= Seq::<Result<Shader, GraphicsError>>::empty());
    while rest.len() > 0
        invariant
            rest@.len() <= all.len(),
            forall|i: int| 0 <= i < rest@.len() ==> rest@[i] == all[all.len() - 1 - i],
            shaders@ == built_shaders(all.take(all.len() - rest@.len())),
            errors@ == build_errors(all.take(all.len() - rest@.len())),
        decreases rest@.len(),
    {
        let ghost done = all.len() - rest@.len();
        assert(all.take(done + 1).drop_last() =~= all.take(done));
        assert(all.take(done + 1).last() == all[done]);
        match rest.pop() {
            Some(Ok(shader)) => shaders.push(shader),
            Some(Err(error)) => errors.push(error),
            None => {},
        }
    }
    assert(all.take(all.len() as int) =~= all);
    (ShaderManager::new(shaders), errors)
}

/// The ending of the name of an image file that can be decoded.
pub open spec fn image_suffix() -> Seq<char> {
    seq!['.', 'p', 'n', 'g']
}

/// Whether `name` ends as the name of an image file that can be decoded.
pub open spec fn names_image(name: Seq<char>) -> bool {
    name.len() >= 4 && name.subrange(name.len() - 4, name.len() as int) == image_suffix()
}

/// Whether a file of this name is an image that can be decoded: only files
/// whose name ends in `.png` are.
pub fn is_image_name(name: &str) -> (image: bool)
    ensures
        image == names_image(name@),
{
    let text = to_chars(name);
    let len = text.len();
    if len < 4 {
        return false;
    }
    let ghost ending = name@.subrange(len - 4, len as int);
    let image = text[len - 4] == '.' && text[len - 3] == 'p' && text[len - 2] == 'n' && text[len
        - 1] == 'g';
    proof {
        if image {
            assert(ending =~= image_suffix());
        } else {
            assert(ending[0] == text@[len - 4]);
            assert(ending[1] == text@[len - 3]);
            assert(ending[2] == text@[len - 2]);
            assert(ending[3] == text@[len - 1]);
        }
    }
    image
}

/// The names of `textures`.
pub open spec fn texture_names(textures: Seq<TextureView>) -> Set<Seq<char>> {
    Set::new(|name: Seq<char>| exists|i: int| 0 <= i < textures.len() && textures[i].name == name)
}

/// The number of bytes that the pixels of an image take as a texture.
pub open spec fn image_byte_len(image: PngDataView) -> nat {
    (image.width as nat) * (image.height as nat) * (InternalFormat::spec_for_format(
        image.format,
    ).spec_bytes() as nat)
}

/// Why an image does not become a texture: no handle is left for it, its
/// pixel data is not as long as its size and format ask, or its name is
/// taken. Nothing where it does.
pub open spec fn image_fault(
    names: Set<Seq<char>>,
    handles_left: nat,
    name: Seq<char>,
    image: PngDataView,
) -> Option<GraphicsErrorView> {
    if handles_left == 0 {
        Some(GraphicsErrorView::OutOfHandles)
    } else if image.data.len() != image_byte_len(image) {
        Some(
            GraphicsErrorView::SizeMismatch {
                expected: image_byte_len(image) as u128,
                actual: image.data.len() as usize,
            },
        )
    } else if names.contains(name) {
        Some(GraphicsErrorView::DuplicateName { name })
    } else {
        None
    }
}

/// The texture that an image becomes under the handle `id`: filled, of the
/// size of the image for good, and of the internal format that stores its
/// pixels.
pub open spec fn image_texture(id: u32, name: Seq<char>, image: PngDataView) -> TextureView {
    TextureView {
        id,
        filled: true,
        format: image.format,
        internal_format: InternalFormat::spec_for_format(image.format),
        width: image.width,
        height: image.height,
        name,
        screen_dependant_dimensions: false,
    }
}

/// The calls that make a texture of an image under the handle `id`: the
/// texture is created, and then filled with the pixels.
pub open spec fn image_commands(id: u32, image: PngDataView) -> Seq<CommandView> {
    Texture::creation_commands(
        id,
        InternalFormat::spec_for_format(image.format),
        image.width,
        image.height,
        image.format,
    ) + Texture::fill_commands(id, image.format, image.width, image.height, image.data)
}

/// In a registry that is well formed, the names that lead to a texture are
/// the names of the textures.
pub proof fn lemma_registry_names(manager: TextureManager)
    requires
        manager.wf(),
    ensures
        manager.names().dom() == texture_names(texture_views(manager.textures())),
{
    let views = texture_views(manager.textures());
    assert forall|name: Seq<char>|
        manager.names().dom().contains(name) == texture_names(views).contains(name) by {
        if manager.names().contains_key(name) {
            let i = manager.names()[name] as int;
            assert(0 <= i < views.len() && views[i].name == name);
        }
        if texture_names(views).contains(name) {
            let i = choose|i: int| 0 <= i < views.len() && views[i].name == name;
            assert(manager.textures()[i].metadata.name@ == name);
        }
    }
    assert(manager.names().dom() =~= texture_names(views));
}

/// Makes a texture of one decoded image, under the given name, and registers
/// it. An image that cannot become a texture leaves the registry and the
/// queue as they are.
pub fn load_texture(
    texture_manager: &mut TextureManager,
    name: &str,
    image: PngData,
    screen_dimensions: (u32, u32),
    gl: &mut CommandQueue,
) -> (result: Result<(), GraphicsError>)
    requires
        old(texture_manager).wf(),
    ensures
        final(texture_manager).wf(),
        old(texture_manager).follows_screen(screen_dimensions) ==> final(texture_manager).follows_screen(
            screen_dimensions,
        ),
        image_fault(
            old(texture_manager).names().dom(),
            old(gl).handles_left(),
            name@,
            image@,
        ) matches Some(fault) ==> {
            &&& result matches Err(error) && error@ == fault
            &&& *final(texture_manager) == *old(texture_manager)
            &&& final(gl).unchanged(*old(gl))
        },
        image_fault(old(texture_manager).names().dom(), old(gl).handles_left(), name@, image@)
            is None ==> {
            &&& result is Ok
            &&& texture_views(final(texture_manager).textures()) == texture_views(
                old(texture_manager).textures(),
            ).push(image_texture(old(gl).next_handle(), name@, image@))
            &&& final(texture_manager).names() == old(texture_manager).names().insert(
                name@,
                old(texture_manager).textures().len() as usize,
            )
            &&& final(gl).extends(*old(gl), image_commands(old(gl).next_handle(), image@), 1)
        },
{
    let PngData { width, height, data, format } = image;
    let int_format = InternalFormat::for_format(format);
    if gl.free_handles() == 0 {
        return Err(GraphicsError::OutOfHandles);
    }
    let bytes = int_format.bytes();
    assert(0 <= (width as nat) * (height as nat) * (bytes as nat) <= 0x4_0000_0000_0000_0000)
        by (nonlinear_arith)
        requires
            width <= 0xffff_ffff,
            height <= 0xffff_ffff,
            bytes <= 4,
    ;
    assert((width as nat) * (height as nat) <= 0x1_0000_0000_0000_0000) by (nonlinear_arith)
        requires
            width <= 0xffff_ffff,
            height <= 0xffff_ffff,
    ;
    let expected: u128 = (width as u128) * (height as u128) * (bytes as u128);
    if data.len() as u128 != expected {
        return Err(GraphicsError::SizeMismatch { expected, actual: data.len() });
    }
    if texture_manager.contains_texture(name) {
        return Err(GraphicsError::DuplicateName { name: name.to_owned() });
    }
    let mut t = match Texture::new(
        Some((width, height)),
        format,
        int_format,
        name,
        screen_dimensions,
        gl,
    ) {
        Ok(t) => t,
        Err(error) => { return Err(error); },
    };
    match t.fill(data, gl) {
        Ok(()) => {},
        Err(error) => { return Err(error); },
    }
    assert(gl@ =~= old(gl)@ + image_commands(old(gl).next_handle(), image@));
    match texture_manager.add_texture(t, gl) {
        Ok(()) => {},
        Err(error) => { return Err(error); },
    }
    assert(texture_views(texture_manager.textures()) =~= texture_views(
        old(texture_manager).textures(),
    ).push(image_texture(old(gl).next_handle(), name@, image@)));
    assert(old(texture_manager).follows_screen(screen_dimensions)
        ==> texture_manager.follows_screen(screen_dimensions)) by {
        if old(texture_manager).follows_screen(screen_dimensions) {
            assert forall|i: int|
                0 <= i < texture_manager.textures().len() && (
                #[trigger] texture_manager.textures()[i]).metadata.screen_dependant_dimensions implies (
                texture_manager.textures()[i].metadata.width,
                texture_manager.textures()[i].metadata.height,
            ) == screen_dimensions by {
                if i < old(texture_manager).textures().len() {
                    assert(texture_manager.textures()[i] == old(texture_manager).textures()[i]);
                }
            }
        }
    }
    Ok(())
}

/// What comes of loading a list of images.
pub ghost struct Loaded {
    /// The textures that the images became, in the order of the images.
    pub textures: Seq<TextureView>,
    /// The calls that made them.
    pub commands: Seq<CommandView>,
    /// The errors of the images that became no texture, in the order of the
    /// images.
    pub errors: Seq<GraphicsErrorView>,
}

/// What comes of loading `images`, each with its name, one after the other
/// into an empty registry, where `first_handle` is the next free handle.
pub open spec fn load_all(images: Seq<(Seq<char>, PngDataView)>, first_handle: u32) -> Loaded
    decreases images.len(),
{
    if images.len() == 0 {
        Loaded { textures: Seq::empty(), commands: Seq::empty(), errors: Seq::empty() }
    } else {
        let before = load_all(images.drop_last(), first_handle);
        let (name, image) = images.last();
        let handle = first_handle + before.textures.len();
        match image_fault(
            texture_names(before.textures),
            (u32::MAX - handle) as nat,
            name,
            image,
        ) {
            Some(fault) => Loaded { errors: before.errors.push(fault), ..before },
            None => Loaded {
                textures: before.textures.push(image_texture(handle as u32, name, image)),
                commands: before.commands + image_commands(handle as u32, image),
                errors: before.errors,
            },
        }
    }
}

/// What each of `images` holds, in order.
pub open spec fn image_views(images: Seq<(String, PngData)>) -> Seq<(Seq<char>, PngDataView)> {
    Seq::new(images.len(), |i: int| (images[i].0@, images[i].1@))
}

/// Makes a registry of the textures of the decoded images, each under its
/// name. An image that cannot become a texture is left out, and its error is
/// given back with those of the others.
pub fn load_textures(
    images: Vec<(String, PngData)>,
    screen_dimensions: (u32, u32),
    gl: &mut CommandQueue,
) -> (result: (TextureManager, Vec<GraphicsError>))
    ensures
        result.0.wf(),
        result.0.follows_screen(screen_dimensions),
        texture_views(result.0.textures()) == load_all(
            image_views(images@),
            old(gl).next_handle(),
        ).textures,
        error_views(result.1@) == load_all(image_views(images@), old(gl).next_handle()).errors,
        final(gl).extends(
            *old(gl),
            load_all(image_views(images@), old(gl).next_handle()).commands,
            load_all(image_views(images@), old(gl).next_handle()).textures.len(),
        ),
{
    let mut texture_manager = TextureManager::new();
    let mut errors: Vec<GraphicsError> = Vec::new();
    let ghost all = image_views(images@);
    let ghost first = old(gl).next_handle();
    let mut images = images;
    let mut rest: Vec<(String, PngData)> = Vec::new();
    // The images are taken from the back, so they are turned around first.
    while images.len() > 0
        invariant
            images@.len() + rest@.len() == all.len(),
            forall|i: int|
                0 <= i < images@.len() ==> ((#[trigger] images@[i]).0@, images@[i].1@) == all[i],
            forall|i: int|
                0 <= i < rest@.len() ==> ((#[trigger] rest@[i]).0@, rest@[i].1@) == all[all.len() - 1
                    - i],
        decreases images@.len(),
    {
        match images.pop() {
            Some(image) => rest.push(image),
            None => {},
        }
    }
    assert(all.take(0) =~= Seq::<(Seq<char>, PngDataView)>::empty());
    assert(texture_views(texture_manager.textures()) =~= load_all(all.take(0), first).textures);
    assert(error_views(errors@) =~= load_all(all.take(0), first).errors);
    assert(gl@ =~= old(gl)@ + load_all(all.take(0), first).commands);
    while rest.len() > 0
        invariant
            rest@.len() <= all.len(),
            first == old(gl).next_handle(),
            forall|i: int|
                0 <= i < rest@.len() ==> ((#[trigger] rest@[i]).0@, rest@[i].1@) == all[all.len() - 1
                    - i],
            texture_manager.wf(),
            texture_manager.follows_screen(screen_dimensions),
            texture_views(texture_manager.textures()) == load_all(
                all.take(all.len() - rest@.len()),
                first,
            ).textures,
            error_views(errors@) == load_all(all.take(all.len() - rest@.len()), first).errors,
            gl.extends(
                *old(gl),
                load_all(all.take(all.len() - rest@.len()), first).commands,
                load_all(all.take(all.len() - rest@.len()), first).textures.len(),
            ),
        decreases rest@.len(),
    {
        let ghost done = all.len() - rest@.len();
        let ghost before = load_all(all.take(done), first);
        let ghost faults = error_views(errors@);
        proof {
            assert(all.take(done + 1).drop_last() =~= all.take(done));
            assert(all.take(done + 1).last() == all[done]);
            lemma_registry_names(texture_manager);
        }
        match rest.pop() {
            Some((name, image)) => {
                match load_texture(
                    &mut texture_manager,
                    name.as_str(),
                    image,
                    screen_dimensions,
                    gl,
                ) {
                    Ok(()) => {
                        assert(gl@ =~= old(gl)@ + load_all(all.take(done + 1), first).commands);
                    },
                    Err(error) => {
                        errors.push(error);
                        assert(error_views(errors@) =~= faults.push(error@));
                    },
                }
            },
            None => {},
        }
    }
    assert(all.take(all.len() as int) =~= all);
    (texture_manager, errors)
}

} // verus!
