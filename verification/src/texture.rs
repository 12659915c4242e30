use crate::backend::{Call, Command, CommandQueue, CommandView, TextureParameter};
use crate::error::GraphicsError;
use crate::utils::ColorFormat;
use vstd::hash_map::StringHashMap;
use vstd::prelude::*;

verus! {

/// The way in which the backend stores the texels of a texture.
#[derive(Clone, Copy, Debug, PartialEq, Eq, Structural)]
pub enum InternalFormat {
    RGBA8,
    RGB8,
    D16,
}

impl InternalFormat {
    /// The number of bytes of one texel.
    pub open spec fn spec_bytes(&self) -> usize {
        match self {
            InternalFormat::RGB8 => 3,
            InternalFormat::RGBA8 => 4,
            InternalFormat::D16 => 2,
        }
    }

    /// The number of bytes of one texel.
    #[verifier::when_used_as_spec(spec_bytes)]
    pub fn bytes(&self) -> (bytes: usize)
        ensures
            bytes == self.spec_bytes(),
    {
        match self {
            InternalFormat::RGB8 => 3,
            InternalFormat::RGBA8 => 4,
            InternalFormat::D16 => 2,
        }
    }
}

impl InternalFormat {
    /// The internal format that stores pixels of the given layout.
    pub open spec fn spec_for_format(format: ColorFormat) -> InternalFormat {
        match format {
            ColorFormat::RGB => InternalFormat::RGB8,
            ColorFormat::RGBA => InternalFormat::RGBA8,
            ColorFormat::D => InternalFormat::D16,
        }
    }

    /// The internal format that stores pixels of the given layout.
    #[verifier::when_used_as_spec(spec_for_format)]
    pub fn for_format(format: ColorFormat) -> (internal_format: InternalFormat)
        ensures
            internal_format == Self::spec_for_format(format),
    {
        match format {
            ColorFormat::RGB => InternalFormat::RGB8,
            ColorFormat::RGBA => InternalFormat::RGBA8,
            ColorFormat::D => InternalFormat::D16,
        }
    }
}

/// What is known of a texture without asking the backend.
#[derive(Debug)]
pub struct TextureMetadata {
    pub format: ColorFormat,
    pub internal_format: InternalFormat,
    pub width: u32,
    pub height: u32,
    pub name: String,
    /// Whether this texture changes size depending on the screen dimensions.
    pub screen_dependant_dimensions: bool,
}

impl TextureMetadata {
    /// The number of bytes of a full image of the texture.
    pub open spec fn byte_len(&self) -> nat {
        (self.width as nat) * (self.height as nat) * (self.internal_format.spec_bytes() as nat)
    }

    /// The same metadata, for a texture of another size.
    pub open spec fn resized(self, dimensions: (u32, u32)) -> TextureMetadata {
        TextureMetadata { width: dimensions.0, height: dimensions.1, ..self }
    }
}

impl Clone for TextureMetadata {
    fn clone(&self) -> (copy: TextureMetadata)
        ensures
            copy == *self,
    {
        TextureMetadata {
            format: self.format,
            internal_format: self.internal_format,
            width: self.width,
            height: self.height,
            name: self.name.clone(),
            screen_dependant_dimensions: self.screen_dependant_dimensions,
        }
    }
}

/// One image of the backend, with what is known of it.
#[derive(Debug)]
pub struct Texture {
    pub id: u32,
    /// Whether the texture was given contents since it was created.
    pub filled: bool,
    pub metadata: TextureMetadata,
}

impl Texture {
    /// The texture that takes the place of this one when the screen takes
    /// the size `dimensions`: the same handle and metadata, the new size, and
    /// no contents.
    pub open spec fn recreated(self, dimensions: (u32, u32)) -> Texture {
        Texture { id: self.id, filled: false, metadata: self.metadata.resized(dimensions) }
    }

    /// The calls that create a texture under the handle `id`: the object is
    /// created and bound, its sampling is set, its image is allocated
    /// without contents, and it is unbound.
    pub open spec fn creation_commands(
        id: u32,
        internal_format: InternalFormat,
        width: u32,
        height: u32,
        format: ColorFormat,
    ) -> Seq<CommandView> {
        seq![
            CommandView::Call(Call::GenTexture { texture: id }),
            CommandView::Call(Call::BindTexture { texture: id }),
            CommandView::Call(Call::TexParameter { parameter: TextureParameter::MinFilterNearest }),
            CommandView::Call(Call::TexParameter { parameter: TextureParameter::MagFilterNearest }),
            CommandView::Call(Call::TexParameter { parameter: TextureParameter::WrapSClampToEdge }),
            CommandView::Call(Call::TexParameter { parameter: TextureParameter::WrapTClampToEdge }),
            CommandView::Call(
                Call::TexParameter { parameter: TextureParameter::CompareFuncLessEqual },
            ),
            CommandView::Call(Call::AllocateImage { internal_format, width, height, format }),
            CommandView::Call(Call::BindTexture { texture: 0 }),
        ]
    }

    /// The calls that create the texture that `metadata` describes under
    /// the handle `id`.
    pub open spec fn creation_commands_of(id: u32, metadata: TextureMetadata) -> Seq<CommandView> {
        Self::creation_commands(
            id,
            metadata.internal_format,
            metadata.width,
            metadata.height,
            metadata.format,
        )
    }

    /// The calls that replace the image of the texture `id`: the texture is
    /// bound, given the whole image anew, and unbound.
    pub open spec fn fill_commands(
        id: u32,
        format: ColorFormat,
        width: u32,
        height: u32,
        pixels: Seq<u8>,
    ) -> Seq<CommandView> {
        seq![
            CommandView::Call(Call::BindTexture { texture: id }),
            CommandView::ImageData { format, width, height, pixels },
            CommandView::Call(Call::BindTexture { texture: 0 }),
        ]
    }

    /// Records the calls that create a texture under the handle `id`.
    fn create(
        id: u32,
        internal_format: InternalFormat,
        width: u32,
        height: u32,
        format: ColorFormat,
        gl: &mut CommandQueue,
    )
        ensures
            final(gl).extends(
                *old(gl),
                Self::creation_commands(id, internal_format, width, height, format),
                0,
            ),
    {
        gl.call(Call::GenTexture { texture: id });
        gl.call(Call::BindTexture { texture: id });
        gl.call(Call::TexParameter { parameter: TextureParameter::MinFilterNearest });
        gl.call(Call::TexParameter { parameter: TextureParameter::MagFilterNearest });
        gl.call(Call::TexParameter { parameter: TextureParameter::WrapSClampToEdge });
        gl.call(Call::TexParameter { parameter: TextureParameter::WrapTClampToEdge });
        gl.call(Call::TexParameter { parameter: TextureParameter::CompareFuncLessEqual });
        gl.call(Call::AllocateImage { internal_format, width, height, format });
        gl.call(Call::BindTexture { texture: 0 });
        assert(gl@ =~= old(gl)@ + Self::creation_commands(
            id,
            internal_format,
            width,
            height,
            format,
        ));
    }

    /// Creates a new, empty texture with the given formats and name, under
    /// the next free handle. With dimensions it has that width and height
    /// for good. Without, it has the size of the screen, and follows it.
    pub fn new(
        dimensions: Option<(u32, u32)>,
        format: ColorFormat,
        internal_format: InternalFormat,
        name: &str,
        screen_dimensions: (u32, u32),
        gl: &mut CommandQueue,
    ) -> (result: Result<Texture, GraphicsError>)
        ensures
            old(gl).handles_left() >= 1 ==> result is Ok,
            result matches Ok(texture) ==> {
                &&& texture.id == old(gl).next_handle()
                &&& !texture.filled
                &&& texture.metadata.format == format
                &&& texture.metadata.internal_format == internal_format
                &&& texture.metadata.name@ == name@
                &&& texture.metadata.screen_dependant_dimensions == (dimensions is None)
                &&& (texture.metadata.width, texture.metadata.height) == match dimensions {
                    Some(d) => d,
                    None => screen_dimensions,
                }
                &&& final(gl).extends(
                    *old(gl),
                    Self::creation_commands_of(texture.id, texture.metadata),
                    1,
                )
            },
            result matches Err(error) ==> error == GraphicsError::OutOfHandles && final(gl).unchanged(
                *old(gl),
            ),
    {
        let (width, height) = match dimensions {
            Some(d) => d,
            None => screen_dimensions,
        };
        let id = match gl.reserve_handles(1) {
            Some(id) => id,
            None => { return Err(GraphicsError::OutOfHandles); },
        };
        Self::create(id, internal_format, width, height, format, gl);
        Ok(
            Texture {
                id,
                filled: false,
                metadata: TextureMetadata {
                    format,
                    internal_format,
                    width,
                    height,
                    name: name.to_owned(),
                    screen_dependant_dimensions: dimensions.is_none(),
                },
            },
        )
    }

    /// Fills the texture with the given data, which has to be a full image:
    /// one texel of the internal format for each pixel.
    pub fn fill(&mut self, data: Vec<u8>, gl: &mut CommandQueue) -> (result: Result<
        (),
        GraphicsError,
    >)
        ensures
            data@.len() == old(self).metadata.byte_len() ==> {
                &&& result is Ok
                &&& final(self).filled
                &&& final(self).id == old(self).id
                &&& final(self).metadata == old(self).metadata
                &&& final(gl).extends(
                    *old(gl),
                    Self::fill_commands(
                        old(self).id,
                        old(self).metadata.format,
                        old(self).metadata.width,
                        old(self).metadata.height,
                        data@,
                    ),
                    0,
                )
            },
            data@.len() != old(self).metadata.byte_len() ==> {
                &&& result == Err::<(), GraphicsError>(
                    GraphicsError::SizeMismatch {
                        expected: old(self).metadata.byte_len() as u128,
                        actual: data.len(),
                    },
                )
                &&& *final(self) == *old(self)
                &&& final(gl).unchanged(*old(gl))
            },
    {
        let width = self.metadata.width;
        let height = self.metadata.height;
        let bytes = self.metadata.internal_format.bytes();
        assert(0 <= (width as nat) * (height as nat) * (bytes as nat) <= 0x4_0000_0000_0000_0000)
            by (nonlinear_arith)
            requires
                width <= 0xffff_ffff,
                height <= 0xffff_ffff,
                bytes <= 4,
        ;
        assert((width as nat) * (height as nat) <= 0x1_0000_0000_0000_0000) by (nonlinear_arith)
            requires
                width <= 0xffff_ffff,
                height <= 0xffff_ffff,
        ;
        let expected: u128 = (width as u128) * (height as u128) * (bytes as u128);
        if data.len() as u128 != expected {
            return Err(GraphicsError::SizeMismatch { expected, actual: data.len() });
        }
        gl.call(Call::BindTexture { texture: self.id });
        gl.record(
            Command::ImageData { format: self.metadata.format, width, height, pixels: data },
        );
        gl.call(Call::BindTexture { texture: 0 });
        self.filled = true;
        assert(gl@ =~= old(gl)@ + Self::fill_commands(
            self.id,
            self.metadata.format,
            width,
            height,
            data@,
        ));
        Ok(())
    }

    /// Binds the texture to the selected texture unit.
    pub fn bind(&self, gl: &mut CommandQueue)
        ensures
            final(gl).extends(
                *old(gl),
                seq![CommandView::Call(Call::BindTexture { texture: self.id })],
                0,
            ),
    {
        gl.call(Call::BindTexture { texture: self.id });
        assert(gl@ =~= old(gl)@ + seq![CommandView::Call(Call::BindTexture { texture: self.id })]);
    }

    pub fn get_id(&self) -> (id: u32)
        ensures
            id == self.id,
    {
        self.id
    }

    /// Gives the texture object up.
    pub fn delete(self, gl: &mut CommandQueue)
        ensures
            final(gl).extends(
                *old(gl),
                seq![CommandView::Call(Call::DeleteTexture { texture: self.id })],
                0,
            ),
    {
        gl.call(Call::DeleteTexture { texture: self.id });
        assert(gl@ =~= old(gl)@ + seq![CommandView::Call(Call::DeleteTexture { texture: self.id })]);
    }
}

/// What a [`Texture`] holds, with its name as a sequence of characters.
pub ghost struct TextureView {
    pub id: u32,
    pub filled: bool,
    pub format: ColorFormat,
    pub internal_format: InternalFormat,
    pub width: u32,
    pub height: u32,
    pub name: Seq<char>,
    pub screen_dependant_dimensions: bool,
}

impl View for Texture {
    type V = TextureView;

    open spec fn view(&self) -> TextureView {
        TextureView {
            id: self.id,
            filled: self.filled,
            format: self.metadata.format,
            internal_format: self.metadata.internal_format,
            width: self.metadata.width,
            height: self.metadata.height,
            name: self.metadata.name@,
            screen_dependant_dimensions: self.metadata.screen_dependant_dimensions,
        }
    }
}

/// What each of `textures` holds, in order.
pub open spec fn texture_views(textures: Seq<Texture>) -> Seq<TextureView> {
    Seq::new(textures.len(), |i: int| textures[i]@)
}

/// The calls that fit the first `n` of `textures` to a screen of the size
/// `dimensions`: each texture that follows the screen is deleted and created
/// anew, under its old handle and at the new size. The others get no call.
pub open spec fn resize_commands(textures: Seq<Texture>, dimensions: (u32, u32), n: int) -> Seq<
    CommandView,
>
    decreases n,
{
    if n <= 0 || n > textures.len() {
        Seq::empty()
    } else if textures[n - 1].metadata.screen_dependant_dimensions {
        resize_commands(textures, dimensions, n - 1) + seq![
            CommandView::Call(Call::DeleteTexture { texture: textures[n - 1].id }),
        ] + Texture::creation_commands_of(
            textures[n - 1].id,
            textures[n - 1].metadata.resized(dimensions),
        )
    } else {
        resize_commands(textures, dimensions, n - 1)
    }
}

/// The calls that delete the first `n` of `textures`, in order.
pub open spec fn texture_deletions(textures: Seq<Texture>, n: int) -> Seq<CommandView>
    decreases n,
{
    if n <= 0 || n > textures.len() {
        Seq::empty()
    } else {
        texture_deletions(textures, n - 1).push(
            CommandView::Call(Call::DeleteTexture { texture: textures[n - 1].id }),
        )
    }
}

/// The registry of the textures, by name.
pub struct TextureManager {
    textures: Vec<Texture>,
    texture_names: StringHashMap<usize>,
}

impl TextureManager {
    /// The registered textures, in the order in which they were added.
    pub closed spec fn textures(&self) -> Seq<Texture> {
        self.textures@
    }

    /// The position in `textures()` of the texture of each name.
    pub closed spec fn names(&self) -> Map<Seq<char>, usize> {
        self.texture_names@
    }

    /// Every texture is found under its name, and every name leads to the
    /// texture that carries it. So no two textures have the same name.
    pub open spec fn wf(&self) -> bool {
        &&& forall|i: int|
            0 <= i < self.textures().len() ==> {
                &&& self.names().contains_key((#[trigger] self.textures()[i]).metadata.name@)
                &&& self.names()[self.textures()[i].metadata.name@] == i
            }
        &&& forall|name: Seq<char>| #[trigger]
            self.names().contains_key(name) ==> {
                &&& self.names()[name] < self.textures().len()
                &&& self.textures()[self.names()[name] as int].metadata.name@ == name
            }
    }

    /// Whether a texture of this name is registered.
    pub open spec fn contains(&self, name: Seq<char>) -> bool {
        self.names().contains_key(name)
    }

    /// The texture that is registered under this name.
    pub open spec fn texture(&self, name: Seq<char>) -> Texture
        recommends
            self.contains(name),
    {
        self.textures()[self.names()[name] as int]
    }

    /// Every texture that follows the screen has the size `dimensions`.
    pub open spec fn follows_screen(&self, dimensions: (u32, u32)) -> bool {
        forall|i: int|
            0 <= i < self.textures().len() && (
            #[trigger] self.textures()[i]).metadata.screen_dependant_dimensions ==> (
            self.textures()[i].metadata.width,
            self.textures()[i].metadata.height,
        ) == dimensions
    }

    /// No two textures of a registry have the same name.
    pub proof fn lemma_names_are_unique(&self, i: int, j: int)
        requires
            self.wf(),
            0 <= i < self.textures().len(),
            0 <= j < self.textures().len(),
            self.textures()[i].metadata.name@ == self.textures()[j].metadata.name@,
        ensures
            i == j,
    {
        assert(self.names()[self.textures()[i].metadata.name@] == i);
        assert(self.names()[self.textures()[j].metadata.name@] == j);
    }

    /// Whether every texture that follows the screen has the size
    /// `dimensions`.
    pub fn follows(&self, dimensions: (u32, u32)) -> (follows: bool)
        ensures
            follows == self.follows_screen(dimensions),
    {
        let mut i: usize = 0;
        while i < self.textures.len()
            invariant
                i <= self.textures@.len(),
                forall|k: int|
                    0 <= k < i && (#[trigger] self.textures()[k]).metadata.screen_dependant_dimensions
                        ==> (self.textures()[k].metadata.width, self.textures()[k].metadata.height)
                        == dimensions,
            decreases self.textures@.len() - i,
        {
            let metadata = &self.textures[i].metadata;
            if metadata.screen_dependant_dimensions && (metadata.width != dimensions.0
                || metadata.height != dimensions.1) {
                assert(self.textures()[i as int].metadata.screen_dependant_dimensions);
                return false;
            }
            i += 1;
        }
        true
    }

    /// A registry without textures.
    pub fn new() -> (manager: TextureManager)
        ensures
            manager.wf(),
            manager.textures() == Seq::<Texture>::empty(),
            manager.names() == Map::<Seq<char>, usize>::empty(),
    {
        TextureManager { textures: Vec::new(), texture_names: StringHashMap::new() }
    }

    /// The metadata of every registered texture, by the name of the texture.
    pub fn get_texture_metadata(&self) -> (metadata: StringHashMap<TextureMetadata>)
        requires
            self.wf(),
        ensures
            metadata@.dom() == self.names().dom(),
            forall|name: Seq<char>|
                self.contains(name) ==> #[trigger] metadata@[name] == self.texture(name).metadata,
    {
        let mut res: StringHashMap<TextureMetadata> = StringHashMap::new();
        let mut i: usize = 0;
        while i < self.textures.len()
            invariant
                self.wf(),
                i <= self.textures().len(),
                forall|name: Seq<char>| #[trigger]
                    res@.contains_key(name) <==> self.names().contains_key(name) && self.names()[name]
                        < i,
                forall|name: Seq<char>| #[trigger]
                    res@.contains_key(name) ==> res@[name] == self.texture(name).metadata,
            decreases self.textures().len() - i,
        {
            let texture = &self.textures[i];
            res.insert(texture.metadata.name.clone(), texture.metadata.clone());
            i += 1;
        }
        assert(res@.dom() =~= self.names().dom());
        res
    }

    /// Registers a texture under its name, unless the name is taken. A
    /// texture that is not registered is given up: nobody else holds it.
    pub fn add_texture(&mut self, texture: Texture, gl: &mut CommandQueue) -> (result: Result<
        (),
        GraphicsError,
    >)
        requires
            old(self).wf(),
        ensures
            final(self).wf(),
            !old(self).contains(texture.metadata.name@) ==> {
                &&& result is Ok
                &&& final(self).textures() == old(self).textures().push(texture)
                &&& final(self).names() == old(self).names().insert(
                    texture.metadata.name@,
                    old(self).textures().len() as usize,
                )
                &&& final(gl).unchanged(*old(gl))
            },
            old(self).contains(texture.metadata.name@) ==> {
                &&& result == Err::<(), GraphicsError>(
                    GraphicsError::DuplicateName { name: texture.metadata.name },
                )
                &&& *final(self) == *old(self)
                &&& final(gl).extends(
                    *old(gl),
                    seq![CommandView::Call(Call::DeleteTexture { texture: texture.id })],
                    0,
                )
            },
    {
        if self.texture_names.contains_key(texture.metadata.name.as_str()) {
            let name = texture.metadata.name.clone();
            texture.delete(gl);
            return Err(GraphicsError::DuplicateName { name });
        }
        self.texture_names.insert(texture.metadata.name.clone(), self.textures.len());
        self.textures.push(texture);
        Ok(())
    }

    /// The texture of the given name.
    pub fn get_texture(&self, name: &str) -> (result: Result<&Texture, GraphicsError>)
        requires
            self.wf(),
        ensures
            self.contains(name@) ==> (result matches Ok(texture) && *texture == self.texture(name@)),
            !self.contains(name@) ==> (result matches Err(
                GraphicsError::TextureNotFound { name: missing },
            ) && missing@ == name@),
    {
        match self.texture_names.get(name) {
            Some(index) => Ok(&self.textures[*index]),
            None => Err(GraphicsError::TextureNotFound { name: name.to_owned() }),
        }
    }

    /// Fills data into the texture of the given name.
    pub fn fill_texture(&mut self, name: &str, data: Vec<u8>, gl: &mut CommandQueue) -> (result:
        Result<(), GraphicsError>)
        requires
            old(self).wf(),
        ensures
            final(self).wf(),
            final(self).names() == old(self).names(),
            !old(self).contains(name@) ==> {
                &&& result matches Err(GraphicsError::TextureNotFound { name: missing }) && missing@
                    == name@
                &&& *final(self) == *old(self)
                &&& final(gl).unchanged(*old(gl))
            },
            old(self).contains(name@) && data@.len() != old(self).texture(name@).metadata.byte_len()
                ==> {
                &&& result == Err::<(), GraphicsError>(
                    GraphicsError::SizeMismatch {
                        expected: old(self).texture(name@).metadata.byte_len() as u128,
                        actual: data.len(),
                    },
                )
                &&& final(self).textures() == old(self).textures()
                &&& final(gl).unchanged(*old(gl))
            },
            old(self).contains(name@) && data@.len() == old(self).texture(name@).metadata.byte_len()
                ==> {
                &&& result is Ok
                &&& final(self).textures() == old(self).textures().update(
                    old(self).names()[name@] as int,
                    Texture { filled: true, ..old(self).texture(name@) },
                )
                &&& final(gl).extends(
                    *old(gl),
                    Texture::fill_commands(
                        old(self).texture(name@).id,
                        old(self).texture(name@).metadata.format,
                        old(self).texture(name@).metadata.width,
                        old(self).texture(name@).metadata.height,
                        data@,
                    ),
                    0,
                )
            },
    {
        let index = match self.texture_names.get(name) {
            Some(index) => *index,
            None => { return Err(GraphicsError::TextureNotFound { name: name.to_owned() }); },
        };
        let result = self.textures[index].fill(data, gl);
        proof {
            if result is Ok {
                assert(self.textures() =~= old(self).textures().update(
                    index as int,
                    Texture { filled: true, ..old(self).texture(name@) },
                ));
            } else {
                assert(self.textures() =~= old(self).textures());
            }
        }
        result
    }

    /// Whether a texture of the given name is registered.
    pub fn contains_texture(&self, name: &str) -> (found: bool)
        ensures
            found == self.contains(name@),
    {
        self.texture_names.contains_key(name)
    }

    /// Fits the textures to a screen of the given size. Each texture that
    /// follows the screen is destroyed and created anew at that size, in its
    /// place in the registry: it keeps its handle, its formats and its name,
    /// and loses its contents. The other textures are left as they are.
    pub fn update_screen_dimensions(&mut self, screen_dimensions: (u32, u32), gl: &mut CommandQueue)
        requires
            old(self).wf(),
        ensures
            final(self).wf(),
            final(self).follows_screen(screen_dimensions),
            final(self).names() == old(self).names(),
            final(self).textures().len() == old(self).textures().len(),
            forall|i: int|
                0 <= i < old(self).textures().len() ==> #[trigger] final(self).textures()[i] == if old(
                    self,
                ).textures()[i].metadata.screen_dependant_dimensions {
                    old(self).textures()[i].recreated(screen_dimensions)
                } else {
                    old(self).textures()[i]
                },
            final(gl).extends(
                *old(gl),
                resize_commands(
                    old(self).textures(),
                    screen_dimensions,
                    old(self).textures().len() as int,
                ),
                0,
            ),
    {
        let mut i: usize = 0;
        assert(gl@ =~= old(gl)@ + resize_commands(old(self).textures(), screen_dimensions, 0));
        while i < self.textures.len()
            invariant
                i <= self.textures().len(),
                self.textures().len() == old(self).textures().len(),
                self.names() == old(self).names(),
                old(self).wf(),
                forall|j: int|
                    0 <= j < i ==> #[trigger] self.textures()[j] == if old(
                        self,
                    ).textures()[j].metadata.screen_dependant_dimensions {
                        old(self).textures()[j].recreated(screen_dimensions)
                    } else {
                        old(self).textures()[j]
                    },
                forall|j: int|
                    i <= j < self.textures().len() ==> #[trigger] self.textures()[j] == old(
                        self,
                    ).textures()[j],
                gl.extends(
                    *old(gl),
                    resize_commands(old(self).textures(), screen_dimensions, i as int),
                    0,
                ),
            decreases self.textures().len() - i,
        {
            if self.textures[i].metadata.screen_dependant_dimensions {
                let old_metadata = self.textures[i].metadata.clone();
                let id = self.textures[i].id;
                gl.call(Call::DeleteTexture { texture: id });
                Texture::create(
                    id,
                    old_metadata.internal_format,
                    screen_dimensions.0,
                    screen_dimensions.1,
                    old_metadata.format,
                    gl,
                );
                self.textures[i] = Texture {
                    id,
                    filled: false,
                    metadata: TextureMetadata {
                        format: old_metadata.format,
                        internal_format: old_metadata.internal_format,
                        width: screen_dimensions.0,
                        height: screen_dimensions.1,
                        name: old_metadata.name,
                        screen_dependant_dimensions: true,
                    },
                };
            }
            i += 1;
            assert(gl@ =~= old(gl)@ + resize_commands(
                old(self).textures(),
                screen_dimensions,
                i as int,
            ));
        }
    }

    /// Gives all textures up, in the order in which they were added.
    pub fn delete(self, gl: &mut CommandQueue)
        ensures
            final(gl).extends(
                *old(gl),
                texture_deletions(self.textures(), self.textures().len() as int),
                0,
            ),
    {
        let mut i: usize = 0;
        assert(gl@ =~= old(gl)@ + texture_deletions(self.textures(), 0));
        while i < self.textures.len()
            invariant
                i <= self.textures@.len(),
                gl.extends(*old(gl), texture_deletions(self.textures(), i as int), 0),
            decreases self.textures@.len() - i,
        {
            gl.call(Call::DeleteTexture { texture: self.textures[i].get_id() });
            i += 1;
            assert(gl@ =~= old(gl)@ + texture_deletions(self.textures(), i as int));
        }
    }
}

} // verus!
