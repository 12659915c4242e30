use crate::vertex::FloatBits;
use vstd::prelude::*;

verus! {

/// A value that can be written to a uniform of a shader program, tagged with
/// its kind. Vectors hold their components in order, matrices their columns
/// one after the other.
#[derive(Clone, Copy, Debug, PartialEq, Eq)]
pub enum UniformValue {
    Float(FloatBits),
    Int(i32),
    Uint(u32),
    Vec4([FloatBits; 4]),
    Vec3([FloatBits; 3]),
    Vec2([FloatBits; 2]),
    IVec4([i32; 4]),
    IVec3([i32; 3]),
    IVec2([i32; 2]),
    UVec4([u32; 4]),
    UVec3([u32; 3]),
    UVec2([u32; 2]),
    Mat4([FloatBits; 16]),
    Mat3([FloatBits; 9]),
    Mat2([FloatBits; 4]),
}

impl UniformValue {
    /// The place of the kind of this value among the kinds: values are sent
    /// kind by kind, in this order.
    pub open spec fn spec_rank(&self) -> u8 {
        match self {
            UniformValue::Float(_) => 0,
            UniformValue::Int(_) => 1,
            UniformValue::Uint(_) => 2,
            UniformValue::Vec4(_) => 3,
            UniformValue::Vec3(_) => 4,
            UniformValue::Vec2(_) => 5,
            UniformValue::IVec4(_) => 6,
            UniformValue::IVec3(_) => 7,
            UniformValue::IVec2(_) => 8,
            UniformValue::UVec4(_) => 9,
            UniformValue::UVec3(_) => 10,
            UniformValue::UVec2(_) => 11,
            UniformValue::Mat4(_) => 12,
            UniformValue::Mat3(_) => 13,
            UniformValue::Mat2(_) => 14,
        }
    }

    /// The place of the kind of this value among the kinds.
    #[verifier::when_used_as_spec(spec_rank)]
    pub fn rank(&self) -> (rank: u8)
        ensures
            rank == self.spec_rank(),
    {
        match self {
            UniformValue::Float(_) => 0,
            UniformValue::Int(_) => 1,
            UniformValue::Uint(_) => 2,
            UniformValue::Vec4(_) => 3,
            UniformValue::Vec3(_) => 4,
            UniformValue::Vec2(_) => 5,
            UniformValue::IVec4(_) => 6,
            UniformValue::IVec3(_) => 7,
            UniformValue::IVec2(_) => 8,
            UniformValue::UVec4(_) => 9,
            UniformValue::UVec3(_) => 10,
            UniformValue::UVec2(_) => 11,
            UniformValue::Mat4(_) => 12,
            UniformValue::Mat3(_) => 13,
            UniformValue::Mat2(_) => 14,
        }
    }
}

/// A value for the uniform of the name `location`.
#[derive(Clone, Debug, PartialEq, Eq)]
pub struct Uniform {
    pub value: UniformValue,
    pub location: String,
}

/// The texture of the name `texture` for the sampler uniform of the name
/// `location`.
#[derive(Clone, Debug, PartialEq, Eq)]
pub struct TextureUniform {
    pub texture: String,
    pub location: String,
}

/// What a [`Uniform`] says: the value and the name of its uniform.
pub ghost struct UniformView {
    pub value: UniformValue,
    pub location: Seq<char>,
}

/// What a [`TextureUniform`] says: the name of the texture and the name of
/// its uniform.
pub ghost struct TextureUniformView {
    pub texture: Seq<char>,
    pub location: Seq<char>,
}

impl View for Uniform {
    type V = UniformView;

    open spec fn view(&self) -> UniformView {
        UniformView { value: self.value, location: self.location@ }
    }
}

impl View for TextureUniform {
    type V = TextureUniformView;

    open spec fn view(&self) -> TextureUniformView {
        TextureUniformView { texture: self.texture@, location: self.location@ }
    }
}

/// What each of `uniforms` says, in order.
pub open spec fn uniform_views(uniforms: Seq<Uniform>) -> Seq<UniformView> {
    Seq::new(uniforms.len(), |i: int| uniforms[i]@)
}

/// What each of `uniforms` says, in order.
pub open spec fn texture_uniform_views(uniforms: Seq<TextureUniform>) -> Seq<TextureUniformView> {
    Seq::new(uniforms.len(), |i: int| uniforms[i]@)
}

/// The values are grouped by kind, the kinds in their order.
pub open spec fn grouped(values: Seq<UniformView>) -> bool {
    forall|i: int, j: int|
        0 <= i <= j < values.len() ==> values[i].value.spec_rank() <= values[j].value.spec_rank()
}

/// The place at which a value of the kind `rank` joins `values`: behind the
/// values of its own kind and of the kinds before it.
pub open spec fn insertion_point(values: Seq<UniformView>, rank: u8) -> int
    decreases values.len(),
{
    if values.len() == 0 || values.last().value.spec_rank() <= rank {
        values.len() as int
    } else {
        insertion_point(values.drop_last(), rank)
    }
}

/// In values that are grouped by kind, a value of the kind `rank` joins
/// behind every value of its kind and of the kinds before it, and before
/// every value of a later kind. So the values stay grouped, and those of one
/// kind stay in the order in which they were added.
pub proof fn lemma_insertion_point(values: Seq<UniformView>, rank: u8)
    requires
        grouped(values),
    ensures
        0 <= insertion_point(values, rank) <= values.len(),
        forall|i: int|
            0 <= i < insertion_point(values, rank) ==> (#[trigger] values[i]).value.spec_rank()
                <= rank,
        forall|i: int|
            insertion_point(values, rank) <= i < values.len() ==> (#[trigger] values[i]).value.spec_rank()
                > rank,
    decreases values.len(),
{
    if values.len() == 0 {
    } else if values.last().value.spec_rank() <= rank {
        assert forall|i: int| 0 <= i < values.len() implies (#[trigger] values[i]).value.spec_rank()
            <= rank by {
            assert(values[i].value.spec_rank() <= values[values.len() - 1].value.spec_rank());
        }
    } else {
        let front = values.drop_last();
        assert(grouped(front)) by {
            assert forall|i: int, j: int| 0 <= i <= j < front.len() implies front[i].value.spec_rank()
                <= front[j].value.spec_rank() by {
                assert(values[i].value.spec_rank() <= values[j].value.spec_rank());
            }
        }
        lemma_insertion_point(front, rank);
        assert forall|i: int| 0 <= i < insertion_point(values, rank) implies (
        #[trigger] values[i]).value.spec_rank() <= rank by {
            assert(values[i] == front[i]);
        }
        assert forall|i: int| insertion_point(values, rank) <= i < values.len() implies (
        #[trigger] values[i]).value.spec_rank() > rank by {
            if i < front.len() {
                assert(values[i] == front[i]);
            }
        }
    }
}

/// Values that are grouped by kind stay so when a value joins at the place
/// that splits them into the kinds up to its own and the kinds behind it.
proof fn lemma_insert_keeps_grouped(values: Seq<UniformView>, place: int, entry: UniformView)
    requires
        grouped(values),
        0 <= place <= values.len(),
        forall|i: int|
            0 <= i < place ==> (#[trigger] values[i]).value.spec_rank() <= entry.value.spec_rank(),
        forall|i: int|
            place <= i < values.len() ==> (#[trigger] values[i]).value.spec_rank()
                > entry.value.spec_rank(),
    ensures
        grouped(values.insert(place, entry)),
{
    let joined = values.insert(place, entry);
    assert forall|i: int, j: int| 0 <= i <= j < joined.len() implies joined[i].value.spec_rank()
        <= joined[j].value.spec_rank() by {
        if i < place && j < place {
            assert(values[i].value.spec_rank() <= values[j].value.spec_rank());
        } else if i < place && j == place {
            assert(values[i].value.spec_rank() <= entry.value.spec_rank());
        } else if i < place && j > place {
            assert(values[i].value.spec_rank() <= entry.value.spec_rank());
            assert(values[j - 1].value.spec_rank() > entry.value.spec_rank());
        } else if i == place && j > place {
            assert(values[j - 1].value.spec_rank() > entry.value.spec_rank());
        } else if i > place {
            assert(values[i - 1].value.spec_rank() <= values[j - 1].value.spec_rank());
        }
    }
}

/// The uniforms of one draw: values and texture references, in the order in
/// which they are sent.
pub ghost struct UniformDataView {
    /// The values, kind by kind, and in each kind in the order in which they
    /// were added.
    pub values: Seq<UniformView>,
    /// The texture references, in the order in which they were added. They
    /// are sent after all values.
    pub textures: Seq<TextureUniformView>,
}

/// The uniform values for one draw. Values are only ever added: a shader
/// manager sends them all at once.
#[derive(Debug)]
pub struct UniformData {
    values: Vec<Uniform>,
    textures: Vec<TextureUniform>,
}

impl View for UniformData {
    type V = UniformDataView;

    closed spec fn view(&self) -> UniformDataView {
        UniformDataView {
            values: uniform_views(self.values@),
            textures: texture_uniform_views(self.textures@),
        }
    }
}

impl UniformData {
    /// The values are grouped by kind.
    pub open spec fn wf(&self) -> bool {
        grouped(self@.values)
    }

    /// The data with `value` added for the uniform `location`.
    pub open spec fn with_value(&self, value: UniformValue, location: Seq<char>) -> UniformDataView {
        UniformDataView {
            values: self@.values.insert(
                insertion_point(self@.values, value.spec_rank()),
                UniformView { value, location },
            ),
            textures: self@.textures,
        }
    }

    /// The data with the texture `texture` added for the uniform `location`.
    pub open spec fn with_texture(&self, texture: Seq<char>, location: Seq<char>) -> UniformDataView {
        UniformDataView {
            values: self@.values,
            textures: self@.textures.push(TextureUniformView { texture, location }),
        }
    }

    /// No uniforms.
    pub fn new() -> (data: UniformData)
        ensures
            data.wf(),
            data@.values == Seq::<UniformView>::empty(),
            data@.textures == Seq::<TextureUniformView>::empty(),
    {
        let data = UniformData { values: Vec::new(), textures: Vec::new() };
        assert(data@.values =~= Seq::<UniformView>::empty());
        assert(data@.textures =~= Seq::<TextureUniformView>::empty());
        data
    }

    /// Adds a value for the uniform `location`, behind the values of its own
    /// kind and of the kinds before it.
    pub fn add(&mut self, value: UniformValue, location: &str)
        requires
            old(self).wf(),
        ensures
            final(self).wf(),
            final(self)@ == old(self).with_value(value, location@),
    {
        let rank = value.rank();
        let mut place: usize = self.values.len();
        while place > 0 && self.values[place - 1].value.rank() > rank
            invariant
                place <= self.values@.len(),
                *self == *old(self),
                rank == value.spec_rank(),
                forall|j: int|
                    place <= j < self.values@.len() ==> (#[trigger] self.values@[j]).value.spec_rank()
                        > rank,
            decreases place,
        {
            place -= 1;
        }
        proof {
            let values = self@.values;
            let entry = UniformView { value, location: location@ };
            lemma_insertion_point(values, rank);
            let point = insertion_point(values, rank);
            if point < place {
                assert(values[place - 1].value.spec_rank() > rank);
                assert(self.values@[place - 1].value.spec_rank() <= rank);
            } else if point > place {
                assert(values[place as int].value.spec_rank() <= rank);
                assert(self.values@[place as int].value.spec_rank() > rank);
            }
            assert forall|i: int| place <= i < values.len() implies (
            #[trigger] values[i]).value.spec_rank() > rank by {
                assert(self.values@[i].value.spec_rank() > rank);
            }
            lemma_insert_keeps_grouped(values, place as int, entry);
        }
        self.values.insert(place, Uniform { value, location: location.to_owned() });
        assert(self@.values =~= old(self).with_value(value, location@).values);
        assert(self@.textures =~= old(self)@.textures);
    }

    /// Adds a float for the uniform `location`.
    pub fn float(&mut self, value: FloatBits, location: &str)
        requires
            old(self).wf(),
        ensures
            final(self).wf(),
            final(self)@ == old(self).with_value(UniformValue::Float(value), location@),
    {
        self.add(UniformValue::Float(value), location)
    }

    /// Adds a signed integer for the uniform `location`.
    pub fn integer(&mut self, value: i32, location: &str)
        requires
            old(self).wf(),
        ensures
            final(self).wf(),
            final(self)@ == old(self).with_value(UniformValue::Int(value), location@),
    {
        self.add(UniformValue::Int(value), location)
    }

    /// Adds an unsigned integer for the uniform `location`.
    pub fn uint(&mut self, value: u32, location: &str)
        requires
            old(self).wf(),
        ensures
            final(self).wf(),
            final(self)@ == old(self).with_value(UniformValue::Uint(value), location@),
    {
        self.add(UniformValue::Uint(value), location)
    }

    /// Adds a vector of four floats for the uniform `location`.
    pub fn vec4(&mut self, value: [FloatBits; 4], location: &str)
        requires
            old(self).wf(),
        ensures
            final(self).wf(),
            final(self)@ == old(self).with_value(UniformValue::Vec4(value), location@),
    {
        self.add(UniformValue::Vec4(value), location)
    }

    /// Adds a vector of three floats for the uniform `location`.
    pub fn vec3(&mut self, value: [FloatBits; 3], location: &str)
        requires
            old(self).wf(),
        ensures
            final(self).wf(),
            final(self)@ == old(self).with_value(UniformValue::Vec3(value), location@),
    {
        self.add(UniformValue::Vec3(value), location)
    }

    /// Adds a vector of two floats for the uniform `location`.
    pub fn vec2(&mut self, value: [FloatBits; 2], location: &str)
        requires
            old(self).wf(),
        ensures
            final(self).wf(),
            final(self)@ == old(self).with_value(UniformValue::Vec2(value), location@),
    {
        self.add(UniformValue::Vec2(value), location)
    }

    /// Adds a vector of four signed integers for the uniform `location`.
    pub fn ivec4(&mut self, value: [i32; 4], location: &str)
        requires
            old(self).wf(),
        ensures
            final(self).wf(),
            final(self)@ == old(self).with_value(UniformValue::IVec4(value), location@),
    {
        self.add(UniformValue::IVec4(value), location)
    }

    /// Adds a vector of three signed integers for the uniform `location`.
    pub fn ivec3(&mut self, value: [i32; 3], location: &str)
        requires
            old(self).wf(),
        ensures
            final(self).wf(),
            final(self)@ == old(self).with_value(UniformValue::IVec3(value), location@),
    {
        self.add(UniformValue::IVec3(value), location)
    }

    /// Adds a vector of two signed integers for the uniform `location`.
    pub fn ivec2(&mut self, value: [i32; 2], location: &str)
        requires
            old(self).wf(),
        ensures
            final(self).wf(),
            final(self)@ == old(self).with_value(UniformValue::IVec2(value), location@),
    {
        self.add(UniformValue::IVec2(value), location)
    }

    /// Adds a vector of four unsigned integers for the uniform `location`.
    pub fn uvec4(&mut self, value: [u32; 4], location: &str)
        requires
            old(self).wf(),
        ensures
            final(self).wf(),
            final(self)@ == old(self).with_value(UniformValue::UVec4(value), location@),
    {
        self.add(UniformValue::UVec4(value), location)
    }

    /// Adds a vector of three unsigned integers for the uniform `location`.
    pub fn uvec3(&mut self, value: [u32; 3], location: &str)
        requires
            old(self).wf(),
        ensures
            final(self).wf(),
            final(self)@ == old(self).with_value(UniformValue::UVec3(value), location@),
    {
        self.add(UniformValue::UVec3(value), location)
    }

    /// Adds a vector of two unsigned integers for the uniform `location`.
    pub fn uvec2(&mut self, value: [u32; 2], location: &str)
        requires
            old(self).wf(),
        ensures
            final(self).wf(),
            final(self)@ == old(self).with_value(UniformValue::UVec2(value), location@),
    {
        self.add(UniformValue::UVec2(value), location)
    }

    /// Adds a matrix of four columns of four floats for the uniform `location`.
    pub fn mat4(&mut self, value: [FloatBits; 16], location: &str)
        requires
            old(self).wf(),
        ensures
            final(self).wf(),
            final(self)@ == old(self).with_value(UniformValue::Mat4(value), location@),
    {
        self.add(UniformValue::Mat4(value), location)
    }

    /// Adds a matrix of three columns of three floats for the uniform `location`.
    pub fn mat3(&mut self, value: [FloatBits; 9], location: &str)
        requires
            old(self).wf(),
        ensures
            final(self).wf(),
            final(self)@ == old(self).with_value(UniformValue::Mat3(value), location@),
    {
        self.add(UniformValue::Mat3(value), location)
    }

    /// Adds a matrix of two columns of two floats for the uniform `location`.
    pub fn mat2(&mut self, value: [FloatBits; 4], location: &str)
        requires
            old(self).wf(),
        ensures
            final(self).wf(),
            final(self)@ == old(self).with_value(UniformValue::Mat2(value), location@),
    {
        self.add(UniformValue::Mat2(value), location)
    }

    /// Adds a reference to the texture of the name `texture` for the sampler
    /// uniform `location`.
    pub fn texture(&mut self, texture: &str, location: &str)
        requires
            old(self).wf(),
        ensures
            final(self).wf(),
            final(self)@ == old(self).with_texture(texture@, location@),
    {
        self.textures.push(
            TextureUniform { texture: texture.to_owned(), location: location.to_owned() },
        );
        assert(self@.values =~= old(self)@.values);
        assert(self@.textures =~= old(self).with_texture(texture@, location@).textures);
    }

    /// The names of the uniforms that the data has something for, in the
    /// order in which it is sent.
    pub fn get_uniform_locations(&self) -> (locations: Vec<String>)
        ensures
            locations@.len() == self@.values.len() + self@.textures.len(),
            forall|i: int|
                0 <= i < self@.values.len() ==> (#[trigger] locations@[i])@ == self@.values[i].location,
            forall|i: int|
                0 <= i < self@.textures.len() ==> (#[trigger] locations@[self@.values.len()
                    + i])@ == self@.textures[i].location,
    {
        let mut res: Vec<String> = Vec::new();
        let mut i: usize = 0;
        while i < self.values.len()
            invariant
                i <= self.values@.len(),
                res@.len() == i,
                forall|k: int| 0 <= k < i ==> (#[trigger] res@[k])@ == self@.values[k].location,
            decreases self.values@.len() - i,
        {
            res.push(self.values[i].location.clone());
            i += 1;
        }
        let mut j: usize = 0;
        while j < self.textures.len()
            invariant
                j <= self.textures@.len(),
                res@.len() == self.values@.len() + j,
                forall|k: int|
                    0 <= k < self.values@.len() ==> (#[trigger] res@[k])@ == self@.values[k].location,
                forall|k: int|
                    0 <= k < j ==> (#[trigger] res@[self.values@.len() + k])@
                        == self@.textures[k].location,
            decreases self.textures@.len() - j,
        {
            res.push(self.textures[j].location.clone());
            j += 1;
        }
        res
    }

    /// The values, in the order in which they are sent.
    pub fn values(&self) -> (values: &Vec<Uniform>)
        ensures
            uniform_views(values@) == self@.values,
    {
        &self.values
    }

    /// The texture references, in the order in which they are sent.
    pub fn textures(&self) -> (textures: &Vec<TextureUniform>)
        ensures
            texture_uniform_views(textures@) == self@.textures,
    {
        &self.textures
    }
}

} // verus!
