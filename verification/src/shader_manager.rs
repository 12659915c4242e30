use crate::backend::{Call, CommandQueue, CommandView};
use crate::error::{error_views, GraphicsError, GraphicsErrorView};
use crate::shader::{Shader, ShaderIdentifier, ShaderMetadata};
use crate::texture::TextureManager;
use crate::uniform_data::{TextureUniformView, UniformData, UniformDataView, UniformValue, UniformView};
use vstd::prelude::*;
use vstd::string::StringExecFns;

verus! {

/// The calls that write `values` to the uniforms of a program with the
/// uniform locations `locations`, in order. A value for a name without a
/// location is passed over.
pub open spec fn value_commands(locations: Map<Seq<char>, i32>, values: Seq<UniformView>) -> Seq<
    CommandView,
>
    decreases values.len(),
{
    if values.len() == 0 {
        Seq::empty()
    } else {
        let before = value_commands(locations, values.drop_last());
        let uniform = values.last();
        if locations.contains_key(uniform.location) {
            before.push(
                CommandView::Call(
                    Call::Uniform { location: locations[uniform.location], value: uniform.value },
                ),
            )
        } else {
            before
        }
    }
}

/// The errors of the values that `value_commands` passes over, in order.
pub open spec fn value_errors(locations: Map<Seq<char>, i32>, values: Seq<UniformView>) -> Seq<
    GraphicsErrorView,
>
    decreases values.len(),
{
    if values.len() == 0 {
        Seq::empty()
    } else {
        let before = value_errors(locations, values.drop_last());
        let uniform = values.last();
        if locations.contains_key(uniform.location) {
            before
        } else {
            before.push(GraphicsErrorView::UnknownUniform { name: uniform.location })
        }
    }
}

/// The uniform of the texture reference has a location, and its texture is
/// registered.
pub open spec fn resolves(
    locations: Map<Seq<char>, i32>,
    registry: TextureManager,
    reference: TextureUniformView,
) -> bool {
    locations.contains_key(reference.location) && registry.contains(reference.texture)
}

/// The number of texture references among `references` that resolve: as
/// many texture units as they take.
pub open spec fn bound_units(
    locations: Map<Seq<char>, i32>,
    registry: TextureManager,
    references: Seq<TextureUniformView>,
) -> nat
    decreases references.len(),
{
    if references.len() == 0 {
        0
    } else {
        bound_units(locations, registry, references.drop_last()) + if resolves(
            locations,
            registry,
            references.last(),
        ) {
            1nat
        } else {
            0nat
        }
    }
}

/// The calls that send the texture references `references`, in order. Each
/// reference that resolves takes the next texture unit, from zero: the unit
/// is selected, the texture is bound to it, and the number of the unit is
/// written to the uniform. A reference that does not resolve is passed over
/// and takes no unit.
pub open spec fn texture_commands(
    locations: Map<Seq<char>, i32>,
    registry: TextureManager,
    references: Seq<TextureUniformView>,
) -> Seq<CommandView>
    decreases references.len(),
{
    if references.len() == 0 {
        Seq::empty()
    } else {
        let before = texture_commands(locations, registry, references.drop_last());
        let unit = bound_units(locations, registry, references.drop_last());
        let reference = references.last();
        if resolves(locations, registry, reference) {
            before.push(CommandView::Call(Call::ActiveTexture { unit: unit as u32 })).push(
                CommandView::Call(
                    Call::BindTexture { texture: registry.texture(reference.texture).id },
                ),
            ).push(
                CommandView::Call(
                    Call::Uniform {
                        location: locations[reference.location],
                        value: UniformValue::Int(unit as i32),
                    },
                ),
            )
        } else {
            before
        }
    }
}

/// The errors of the texture references that `texture_commands` passes
/// over, in order: that of the uniform where it has no location, and else
/// that of the texture.
pub open spec fn texture_errors(
    locations: Map<Seq<char>, i32>,
    registry: TextureManager,
    references: Seq<TextureUniformView>,
) -> Seq<GraphicsErrorView>
    decreases references.len(),
{
    if references.len() == 0 {
        Seq::empty()
    } else {
        let before = texture_errors(locations, registry, references.drop_last());
        let reference = references.last();
        if !locations.contains_key(reference.location) {
            before.push(GraphicsErrorView::UnknownUniform { name: reference.location })
        } else if !registry.contains(reference.texture) {
            before.push(GraphicsErrorView::TextureNotFound { name: reference.texture })
        } else {
            before
        }
    }
}

/// The calls that send `data` to a program with the uniform locations
/// `locations`: the values first, then the texture references.
pub open spec fn dispatch_commands(
    locations: Map<Seq<char>, i32>,
    registry: TextureManager,
    data: UniformDataView,
) -> Seq<CommandView> {
    value_commands(locations, data.values) + texture_commands(locations, registry, data.textures)
}

/// The errors of the entries of `data` that are not sent, in the order of
/// the entries.
pub open spec fn dispatch_errors(
    locations: Map<Seq<char>, i32>,
    registry: TextureManager,
    data: UniformDataView,
) -> Seq<GraphicsErrorView> {
    value_errors(locations, data.values) + texture_errors(locations, registry, data.textures)
}

/// A value whose uniform has a location is written, whatever else is sent
/// with it.
pub proof fn lemma_known_value_is_written(
    locations: Map<Seq<char>, i32>,
    values: Seq<UniformView>,
    i: int,
)
    requires
        0 <= i < values.len(),
        locations.contains_key(values[i].location),
    ensures
        value_commands(locations, values).contains(
            CommandView::Call(
                Call::Uniform { location: locations[values[i].location], value: values[i].value },
            ),
        ),
    decreases values.len(),
{
    let write = CommandView::Call(
        Call::Uniform { location: locations[values[i].location], value: values[i].value },
    );
    let before = value_commands(locations, values.drop_last());
    if i == values.len() - 1 {
        assert(before.push(write)[before.len() as int] == write);
    } else {
        lemma_known_value_is_written(locations, values.drop_last(), i);
        let k = choose|k: int| 0 <= k < before.len() && before[k] == write;
        assert(value_commands(locations, values)[k] == write);
    }
}

/// The texture references take as many calls as three for each texture
/// unit, and the units are taken in order, from zero, without a gap: that
/// many units are selected, the first with its number written to a uniform
/// being unit zero. The values that are sent before them make no
/// difference.
pub proof fn lemma_texture_units(
    locations: Map<Seq<char>, i32>,
    registry: TextureManager,
    references: Seq<TextureUniformView>,
)
    requires
        references.len() <= i32::MAX,
    ensures
        bound_units(locations, registry, references) <= references.len(),
        texture_commands(locations, registry, references).len() == 3 * bound_units(
            locations,
            registry,
            references,
        ),
        forall|k: int|
            0 <= k < bound_units(locations, registry, references) ==> {
                &&& #[trigger] texture_commands(locations, registry, references)[3 * k]
                    == CommandView::Call(Call::ActiveTexture { unit: k as u32 })
                &&& texture_commands(locations, registry, references)[3 * k + 2] matches CommandView::Call(
                    Call::Uniform { value, .. },
                ) && value == UniformValue::Int(k as i32)
            },
    decreases references.len(),
{
    if references.len() > 0 {
        lemma_texture_units(locations, registry, references.drop_last());
        let before = texture_commands(locations, registry, references.drop_last());
        let all = texture_commands(locations, registry, references);
        let units = bound_units(locations, registry, references.drop_last());
        assert forall|k: int| 0 <= k < bound_units(locations, registry, references) implies {
            &&& #[trigger] all[3 * k] == CommandView::Call(Call::ActiveTexture { unit: k as u32 })
            &&& all[3 * k + 2] matches CommandView::Call(Call::Uniform { value, .. }) && value
                == UniformValue::Int(k as i32)
        } by {
            if k < units {
                assert(all[3 * k] == before[3 * k]);
                assert(all[3 * k + 2] == before[3 * k + 2]);
            }
        }
    }
}

/// Each texture reference that resolves has its texture bound and the
/// number of its unit written to its uniform, whatever else is sent with
/// it.
pub proof fn lemma_resolved_texture_is_bound(
    locations: Map<Seq<char>, i32>,
    registry: TextureManager,
    references: Seq<TextureUniformView>,
    i: int,
)
    requires
        0 <= i < references.len(),
        resolves(locations, registry, references[i]),
    ensures
        texture_commands(locations, registry, references).contains(
            CommandView::Call(Call::BindTexture { texture: registry.texture(references[i].texture).id }),
        ),
        texture_commands(locations, registry, references).contains(
            CommandView::Call(
                Call::Uniform {
                    location: locations[references[i].location],
                    value: UniformValue::Int(
                        bound_units(locations, registry, references.take(i)) as i32,
                    ),
                },
            ),
        ),
    decreases references.len(),
{
    let bind = CommandView::Call(
        Call::BindTexture { texture: registry.texture(references[i].texture).id },
    );
    let write = CommandView::Call(
        Call::Uniform {
            location: locations[references[i].location],
            value: UniformValue::Int(bound_units(locations, registry, references.take(i)) as i32),
        },
    );
    let before = texture_commands(locations, registry, references.drop_last());
    let all = texture_commands(locations, registry, references);
    if i == references.len() - 1 {
        assert(references.take(i) =~= references.drop_last());
        assert(all[before.len() as int + 1] == bind);
        assert(all[before.len() as int + 2] == write);
    } else {
        assert(references.drop_last().take(i) =~= references.take(i));
        lemma_resolved_texture_is_bound(locations, registry, references.drop_last(), i);
        let b = choose|b: int| 0 <= b < before.len() && before[b] == bind;
        assert(all[b] == bind);
        let w = choose|w: int| 0 <= w < before.len() && before[w] == write;
        assert(all[w] == write);
    }
}

/// Whatever is sent with it, an entry of `data` that can be sent is sent: a
/// value whose uniform has a location is written to that location.
pub proof fn lemma_dispatch_writes_known_value(
    locations: Map<Seq<char>, i32>,
    registry: TextureManager,
    data: UniformDataView,
    i: int,
)
    requires
        0 <= i < data.values.len(),
        locations.contains_key(data.values[i].location),
    ensures
        dispatch_commands(locations, registry, data).contains(
            CommandView::Call(
                Call::Uniform {
                    location: locations[data.values[i].location],
                    value: data.values[i].value,
                },
            ),
        ),
{
    let write = CommandView::Call(
        Call::Uniform { location: locations[data.values[i].location], value: data.values[i].value },
    );
    lemma_known_value_is_written(locations, data.values, i);
    let values = value_commands(locations, data.values);
    let k = choose|k: int| 0 <= k < values.len() && values[k] == write;
    assert(dispatch_commands(locations, registry, data)[k] == write);
}

/// Whatever is sent with it, a texture reference of `data` that resolves
/// has its texture bound.
pub proof fn lemma_dispatch_binds_resolved_texture(
    locations: Map<Seq<char>, i32>,
    registry: TextureManager,
    data: UniformDataView,
    i: int,
)
    requires
        0 <= i < data.textures.len(),
        resolves(locations, registry, data.textures[i]),
    ensures
        dispatch_commands(locations, registry, data).contains(
            CommandView::Call(
                Call::BindTexture { texture: registry.texture(data.textures[i].texture).id },
            ),
        ),
{
    let bind = CommandView::Call(
        Call::BindTexture { texture: registry.texture(data.textures[i].texture).id },
    );
    lemma_resolved_texture_is_bound(locations, registry, data.textures, i);
    let values = value_commands(locations, data.values);
    let textures = texture_commands(locations, registry, data.textures);
    let k = choose|k: int| 0 <= k < textures.len() && textures[k] == bind;
    assert(dispatch_commands(locations, registry, data)[values.len() + k] == bind);
}

/// The texture units of one dispatch count up from zero: behind the calls
/// for the values, the texture references that resolve take three calls
/// each, of which the first selects the next unit and the last writes its
/// number. Which values are sent, and how many, makes no difference to the
/// units.
pub proof fn lemma_dispatch_counts_texture_units(
    locations: Map<Seq<char>, i32>,
    registry: TextureManager,
    data: UniformDataView,
)
    requires
        data.textures.len() <= i32::MAX,
    ensures
        dispatch_commands(locations, registry, data).len() == value_commands(
            locations,
            data.values,
        ).len() + 3 * bound_units(locations, registry, data.textures),
        forall|k: int|
            0 <= k < bound_units(locations, registry, data.textures) ==> {
                &&& #[trigger] dispatch_commands(locations, registry, data)[value_commands(
                    locations,
                    data.values,
                ).len() + 3 * k] == CommandView::Call(Call::ActiveTexture { unit: k as u32 })
                &&& dispatch_commands(locations, registry, data)[value_commands(
                    locations,
                    data.values,
                ).len() + 3 * k + 2] matches CommandView::Call(Call::Uniform { value, .. })
                    && value == UniformValue::Int(k as i32)
            },
{
    lemma_texture_units(locations, registry, data.textures);
    let base = value_commands(locations, data.values).len() as int;
    let textures = texture_commands(locations, registry, data.textures);
    let all = dispatch_commands(locations, registry, data);
    assert forall|k: int| 0 <= k < bound_units(locations, registry, data.textures) implies {
        &&& #[trigger] all[base + 3 * k] == CommandView::Call(Call::ActiveTexture { unit: k as u32 })
        &&& all[base + 3 * k + 2] matches CommandView::Call(Call::Uniform { value, .. }) && value
            == UniformValue::Int(k as i32)
    } by {
        assert(all[base + 3 * k] == textures[3 * k]);
        assert(all[base + 3 * k + 2] == textures[3 * k + 2]);
    }
}

/// The calls that delete the first `n` of the programs `shaders`, in order.
pub open spec fn program_deletions(shaders: Seq<Shader>, n: int) -> Seq<CommandView>
    decreases n,
{
    if n <= 0 || n > shaders.len() {
        Seq::empty()
    } else {
        program_deletions(shaders, n - 1).push(
            CommandView::Call(Call::DeleteProgram { program: shaders[n - 1].spec_program() }),
        )
    }
}

/// The shader programs, one for each identifier, and the one that is bound.
pub struct ShaderManager {
    /// Shaders indexed by their count in the ShaderIdentifier enum
    shaders: Vec<Shader>,
    // The chosen shader.
    bound_shader: Option<ShaderIdentifier>,
}

impl ShaderManager {
    /// The programs, by the ordinal of their identifier.
    pub closed spec fn shaders(&self) -> Seq<Shader> {
        self.shaders@
    }

    /// The identifier of the program that is bound, if one is.
    pub closed spec fn bound(&self) -> Option<ShaderIdentifier> {
        self.bound_shader
    }

    /// There is one program for each identifier, at the place of the ordinal
    /// of its identifier.
    pub open spec fn complete(shaders: Seq<Shader>) -> bool {
        &&& shaders.len() == ShaderIdentifier::COUNT
        &&& forall|i: int|
            0 <= i < shaders.len() ==> (
            #[trigger] shaders[i]).spec_metadata().identifier.spec_ordinal() == i
    }

    /// The programs are complete.
    pub open spec fn wf(&self) -> bool {
        Self::complete(self.shaders())
    }

    /// The program of an identifier.
    pub open spec fn shader(&self, identifier: ShaderIdentifier) -> Shader {
        self.shaders()[identifier.spec_ordinal() as int]
    }

    /// The calls that bind `program` where `bound` was bound before: what was
    /// bound is unbound first.
    pub open spec fn bind_commands(bound: Option<ShaderIdentifier>, program: u32) -> Seq<CommandView> {
        if bound is Some {
            seq![
                CommandView::Call(Call::UseProgram { program: 0 }),
                CommandView::Call(Call::UseProgram { program }),
            ]
        } else {
            seq![CommandView::Call(Call::UseProgram { program })]
        }
    }

    /// Takes the programs that were built. They have to be all programs, in
    /// the order of their identifiers. No program is bound at first.
    pub fn new(shaders: Vec<Shader>) -> (result: Result<ShaderManager, GraphicsError>)
        ensures
            Self::complete(shaders@) ==> (result matches Ok(manager) && manager.shaders() == shaders@
                && manager.bound() is None && manager.wf()),
            !Self::complete(shaders@) ==> result == Err::<ShaderManager, GraphicsError>(
                GraphicsError::IncompleteShaderSet,
            ),
    {
        let mut count: usize = 0;
        while count < shaders.len()
            invariant
                count <= shaders@.len(),
                forall|i: int|
                    0 <= i < count ==> (
                    #[trigger] shaders@[i]).spec_metadata().identifier.spec_ordinal() == i,
            decreases shaders@.len() - count,
        {
            if shaders[count].get_metadata().identifier.ordinal() != count {
                return Err(GraphicsError::IncompleteShaderSet);
            }
            count += 1;
        }
        if count != ShaderIdentifier::COUNT {
            return Err(GraphicsError::IncompleteShaderSet);
        }
        Ok(ShaderManager { shaders, bound_shader: None })
    }

    /// Binds the program of `shader`, after unbinding the one that was bound.
    pub fn bind_shader(&mut self, shader: ShaderIdentifier, gl: &mut CommandQueue)
        requires
            old(self).wf(),
        ensures
            final(self).wf(),
            final(self).shaders() == old(self).shaders(),
            final(self).bound() == Some(shader),
            final(gl).extends(
                *old(gl),
                Self::bind_commands(old(self).bound(), old(self).shader(shader).spec_program()),
                0,
            ),
    {
        if let Some(s) = self.bound_shader.take() {
            self.shaders[s.ordinal()].unbind(gl);
        }
        self.shaders[shader.ordinal()].bind(gl);
        self.bound_shader = Some(shader);
        assert(gl@ =~= old(gl)@ + Self::bind_commands(
            old(self).bound(),
            old(self).shader(shader).spec_program(),
        ));
    }

    /// Sends `uniforms` to the program that is bound: the values, each to the
    /// location of its name, and then the texture references, each bound to
    /// the next texture unit. An entry that cannot be sent is passed over,
    /// and its error is given back with those of the others. Nothing is sent
    /// where no program is bound.
    pub fn uniforms(
        &self,
        uniforms: &UniformData,
        texture_manager: &TextureManager,
        gl: &mut CommandQueue,
    ) -> (result: Result<Vec<GraphicsError>, GraphicsError>)
        requires
            self.wf(),
            texture_manager.wf(),
            uniforms@.textures.len() <= i32::MAX,
        ensures
            self.bound() is None ==> result == Err::<Vec<GraphicsError>, GraphicsError>(
                GraphicsError::NoBoundShaderError,
            ) && final(gl).unchanged(*old(gl)),
            self.bound() matches Some(bound) ==> {
                &&& result matches Ok(errors) && error_views(errors@) == dispatch_errors(
                    self.shader(bound).locations(),
                    *texture_manager,
                    uniforms@,
                )
                &&& final(gl).extends(
                    *old(gl),
                    dispatch_commands(self.shader(bound).locations(), *texture_manager, uniforms@),
                    0,
                )
            },
    {
        let bound = match self.bound_shader {
            Some(bound) => bound,
            None => { return Err(GraphicsError::NoBoundShaderError); },
        };
        let s = &self.shaders[bound.ordinal()];
        let ghost locations = s.locations();
        let mut errors: Vec<GraphicsError> = Vec::new();

        let values = uniforms.values();
        let ghost sent = uniforms@.values;
        let mut i: usize = 0;
        assert(sent.take(0) =~= Seq::<UniformView>::empty());
        assert(gl@ =~= old(gl)@ + value_commands(locations, sent.take(0)));
        assert(error_views(errors@) =~= value_errors(locations, sent.take(0)));
        while i < values.len()
            invariant
                i <= values@.len(),
                sent.len() == values@.len(),
                forall|k: int| 0 <= k < values@.len() ==> sent[k] == (#[trigger] values@[k])@,
                locations == s.locations(),
                gl.extends(*old(gl), value_commands(locations, sent.take(i as int)), 0),
                error_views(errors@) == value_errors(locations, sent.take(i as int)),
            decreases values@.len() - i,
        {
            let uniform = &values[i];
            let ghost errors_before = error_views(errors@);
            assert(sent.take(i + 1).drop_last() =~= sent.take(i as int));
            assert(sent.take(i + 1).last() == uniform@);
            match s.location(uniform.location.as_str()) {
                Some(location) => {
                    gl.call(Call::Uniform { location, value: uniform.value });
                },
                None => {
                    errors.push(GraphicsError::UnknownUniform { name: uniform.location.clone() });
                    assert(error_views(errors@) =~= errors_before.push(
                        GraphicsErrorView::UnknownUniform { name: uniform.location@ },
                    ));
                },
            }
            i += 1;
            assert(gl@ =~= old(gl)@ + value_commands(locations, sent.take(i as int)));
        }
        assert(sent.take(values@.len() as int) =~= sent);

        let references = uniforms.textures();
        let ghost bound_references = uniforms@.textures;
        let ghost value_calls = value_commands(locations, sent);
        let ghost value_faults = value_errors(locations, sent);
        let mut texture_slot: i32 = 0;
        let mut j: usize = 0;
        assert(bound_references.take(0) =~= Seq::<TextureUniformView>::empty());
        assert(gl@ =~= old(gl)@ + (value_calls + texture_commands(
            locations,
            *texture_manager,
            bound_references.take(0),
        )));
        assert(error_views(errors@) =~= value_faults + texture_errors(
            locations,
            *texture_manager,
            bound_references.take(0),
        ));
        while j < references.len()
            invariant
                j <= references@.len(),
                references@.len() <= i32::MAX,
                texture_manager.wf(),
                bound_references.len() == references@.len(),
                forall|k: int|
                    0 <= k < references@.len() ==> bound_references[k] == (#[trigger] references@[k])@,
                locations == s.locations(),
                texture_slot == bound_units(
                    locations,
                    *texture_manager,
                    bound_references.take(j as int),
                ),
                texture_slot <= j,
                gl.extends(
                    *old(gl),
                    value_calls + texture_commands(
                        locations,
                        *texture_manager,
                        bound_references.take(j as int),
                    ),
                    0,
                ),
                error_views(errors@) == value_faults + texture_errors(
                    locations,
                    *texture_manager,
                    bound_references.take(j as int),
                ),
            decreases references@.len() - j,
        {
            let reference = &references[j];
            let ghost errors_before = error_views(errors@);
            assert(bound_references.take(j + 1).drop_last() =~= bound_references.take(j as int));
            assert(bound_references.take(j + 1).last() == reference@);
            match s.location(reference.location.as_str()) {
                Some(location) => {
                    match texture_manager.get_texture(reference.texture.as_str()) {
                        Ok(tex) => {
                            gl.call(Call::ActiveTexture { unit: texture_slot as u32 });
                            tex.bind(gl);
                            gl.call(
                                Call::Uniform { location, value: UniformValue::Int(texture_slot) },
                            );
                            texture_slot += 1;
                        },
                        Err(error) => {
                            errors.push(error);
                            assert(error_views(errors@) =~= errors_before.push(
                                GraphicsErrorView::TextureNotFound { name: reference.texture@ },
                            ));
                        },
                    }
                },
                None => {
                    errors.push(GraphicsError::UnknownUniform { name: reference.location.clone() });
                    assert(error_views(errors@) =~= errors_before.push(
                        GraphicsErrorView::UnknownUniform { name: reference.location@ },
                    ));
                },
            }
            j += 1;
            assert(gl@ =~= old(gl)@ + (value_calls + texture_commands(
                locations,
                *texture_manager,
                bound_references.take(j as int),
            )));
            assert(error_views(errors@) =~= value_faults + texture_errors(
                locations,
                *texture_manager,
                bound_references.take(j as int),
            ));
        }
        assert(bound_references.take(references@.len() as int) =~= bound_references);
        Ok(errors)
    }

    /// The name of the program that is bound, if one is.
    pub fn get_active_shader_name(&self) -> (name: Option<String>)
        ensures
            match self.bound() {
                Some(bound) => name matches Some(text) && text@ == bound.spec_name(),
                None => name is None,
            },
    {
        match self.bound_shader {
            Some(bound) => Some(String::from_str(bound.name())),
            None => None,
        }
    }

    /// Returns the metadata of every Shader indexed by its ShaderIdentifier.
    pub fn get_shader_metadata(&self) -> (metadata: Vec<ShaderMetadata>)
        ensures
            metadata@.len() == self.shaders().len(),
            forall|i: int|
                0 <= i < metadata@.len() ==> (#[trigger] metadata@[i])@
                    == self.shaders()[i].spec_metadata(),
    {
        let mut res: Vec<ShaderMetadata> = Vec::new();
        let mut i: usize = 0;
        while i < self.shaders.len()
            invariant
                i <= self.shaders@.len(),
                res@.len() == i,
                forall|k: int|
                    0 <= k < i ==> (#[trigger] res@[k])@ == self.shaders@[k].spec_metadata(),
            decreases self.shaders@.len() - i,
        {
            res.push(self.shaders[i].get_metadata().clone());
            i += 1;
        }
        res
    }

    /// Gives all programs up, in the order of their identifiers.
    pub fn delete(self, gl: &mut CommandQueue)
        ensures
            final(gl).extends(
                *old(gl),
                program_deletions(self.shaders(), self.shaders().len() as int),
                0,
            ),
    {
        let mut i: usize = 0;
        assert(gl@ =~= old(gl)@ + program_deletions(self.shaders(), 0));
        while i < self.shaders.len()
            invariant
                i <= self.shaders@.len(),
                gl.extends(*old(gl), program_deletions(self.shaders(), i as int), 0),
            decreases self.shaders@.len() - i,
        {
            gl.call(Call::DeleteProgram { program: self.shaders[i].program() });
            i += 1;
            assert(gl@ =~= old(gl)@ + program_deletions(self.shaders(), i as int));
        }
    }
}

} // verus!
