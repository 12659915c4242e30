use crate::backend::{Call, Command, CommandQueue, CommandView, ShaderStage};
use crate::error::{GraphicsError, GraphicsErrorView};
use crate::uniform_scan::{declarations, find_uniforms, lines, pair_views};
use vstd::hash_map::StringHashMap;
use vstd::prelude::*;
use vstd::string::StringExecFns;

verus! {

/// The kind of pipeline that a shader program runs in.
#[derive(Clone, Copy, Debug, PartialEq, Eq, Structural)]
pub enum ProgramType {
    Graphics,
}

/// The shader programs that the layer knows: a closed set.
#[derive(Clone, Copy, Debug, PartialEq, Eq, Structural)]
pub enum ShaderIdentifier {
    Default,
}

impl ShaderIdentifier {
    /// The number of shader identifiers.
    pub const COUNT: usize = 1;

    /// The place of the identifier among the identifiers, from zero.
    pub open spec fn spec_ordinal(&self) -> usize {
        match self {
            ShaderIdentifier::Default => 0,
        }
    }

    /// The place of the identifier among the identifiers, from zero.
    #[verifier::when_used_as_spec(spec_ordinal)]
    pub fn ordinal(&self) -> (ordinal: usize)
        ensures
            ordinal == self.spec_ordinal(),
            ordinal < ShaderIdentifier::COUNT,
    {
        match self {
            ShaderIdentifier::Default => 0,
        }
    }

    /// All identifiers, each at the place of its ordinal.
    pub fn all() -> (identifiers: Vec<ShaderIdentifier>)
        ensures
            identifiers@.len() == ShaderIdentifier::COUNT,
            forall|i: int|
                0 <= i < ShaderIdentifier::COUNT ==> (#[trigger] identifiers@[i]).spec_ordinal() == i,
    {
        let mut identifiers: Vec<ShaderIdentifier> = Vec::new();
        identifiers.push(ShaderIdentifier::Default);
        identifiers
    }

    /// The name of the shader program.
    pub open spec fn spec_name(&self) -> Seq<char> {
        match self {
            ShaderIdentifier::Default => "Default"@,
        }
    }

    /// The path of the source files of the program below the assets
    /// directory, without their extension.
    pub open spec fn spec_extensionless_path(&self) -> Seq<char> {
        match self {
            ShaderIdentifier::Default => "shaders/default"@,
        }
    }

    /// The name of the shader program.
    pub fn name(&self) -> (name: &'static str)
        ensures
            name@ == self.spec_name(),
    {
        match self {
            ShaderIdentifier::Default => "Default",
        }
    }

    /// The path of the source files of the program below the assets
    /// directory, without their extension.
    pub fn extensionless_path(&self) -> (path: &'static str)
        ensures
            path@ == self.spec_extensionless_path(),
    {
        match self {
            ShaderIdentifier::Default => "shaders/default",
        }
    }

    /// The path of the vertex shader source of the program, for assets that
    /// lie in the directory `assets`.
    pub open spec fn spec_vertex_path(&self, assets: Seq<char>) -> Seq<char> {
        assets + "/"@ + self.spec_extensionless_path() + ".vert"@
    }

    /// The path of the fragment shader source of the program, for assets
    /// that lie in the directory `assets`.
    pub open spec fn spec_fragment_path(&self, assets: Seq<char>) -> Seq<char> {
        assets + "/"@ + self.spec_extensionless_path() + ".frag"@
    }

    /// The path of the vertex shader source of the program, for assets that
    /// lie in the directory `assets`.
    pub fn vertex_path(&self, assets: &str) -> (path: String)
        ensures
            path@ == self.spec_vertex_path(assets@),
    {
        let mut path = String::from_str(assets);
        path.append("/");
        path.append(self.extensionless_path());
        path.append(".vert");
        path
    }

    /// The path of the fragment shader source of the program, for assets
    /// that lie in the directory `assets`.
    pub fn fragment_path(&self, assets: &str) -> (path: String)
        ensures
            path@ == self.spec_fragment_path(assets@),
    {
        let mut path = String::from_str(assets);
        path.append("/");
        path.append(self.extensionless_path());
        path.append(".frag");
        path
    }
}

/// What is known of a shader program without asking the backend.
#[derive(Debug)]
pub struct ShaderMetadata {
    pub identifier: ShaderIdentifier,
    /// The uniforms that this shader needs filled out
    /// First string is the name of the uniform, second is the file and line at which it is found (for error reports)
    pub required_uniforms: Vec<(String, String)>,
    pub shader_type: ProgramType,
}

/// What a [`ShaderMetadata`] says, with its texts as sequences of
/// characters.
pub ghost struct ShaderMetadataView {
    pub identifier: ShaderIdentifier,
    pub required_uniforms: Seq<(Seq<char>, Seq<char>)>,
    pub shader_type: ProgramType,
}

impl View for ShaderMetadata {
    type V = ShaderMetadataView;

    open spec fn view(&self) -> ShaderMetadataView {
        ShaderMetadataView {
            identifier: self.identifier,
            required_uniforms: pair_views(self.required_uniforms@),
            shader_type: self.shader_type,
        }
    }
}

/// A copy of `pairs`.
fn clone_pairs(pairs: &Vec<(String, String)>) -> (copy: Vec<(String, String)>)
    ensures
        copy@ == pairs@,
{
    let mut copy: Vec<(String, String)> = Vec::new();
    let mut i: usize = 0;
    while i < pairs.len()
        invariant
            i <= pairs@.len(),
            copy@ == pairs@.take(i as int),
        decreases pairs@.len() - i,
    {
        copy.push((pairs[i].0.clone(), pairs[i].1.clone()));
        i += 1;
        assert(copy@ =~= pairs@.take(i as int));
    }
    assert(pairs@.take(pairs@.len() as int) =~= pairs@);
    copy
}

impl Clone for ShaderMetadata {
    fn clone(&self) -> (copy: ShaderMetadata)
        ensures
            copy@ == self@,
    {
        ShaderMetadata {
            identifier: self.identifier,
            required_uniforms: clone_pairs(&self.required_uniforms),
            shader_type: self.shader_type,
        }
    }
}

/// The names of the first `n` of the uniforms `required`.
pub open spec fn uniform_names(required: Seq<(Seq<char>, Seq<char>)>, n: int) -> Set<Seq<char>> {
    Set::new(|name: Seq<char>| exists|i: int| 0 <= i < n && i < required.len() && required[i].0 == name)
}

/// One stage of a shader program that the backend was told to compile.
#[derive(Debug)]
pub struct StageBuild {
    shader: u32,
    stage: ShaderStage,
    uniforms: Vec<(String, String)>,
}

impl StageBuild {
    /// The handle of the shader object.
    pub closed spec fn spec_shader(&self) -> u32 {
        self.shader
    }

    /// The stage that the shader object is compiled for.
    pub closed spec fn spec_stage(&self) -> ShaderStage {
        self.stage
    }

    /// The uniforms that the source of the stage declares.
    pub closed spec fn spec_uniforms(&self) -> Seq<(Seq<char>, Seq<char>)> {
        pair_views(self.uniforms@)
    }

    /// The handle of the shader object, by which the backend is asked how the
    /// compilation went.
    #[verifier::when_used_as_spec(spec_shader)]
    pub fn shader(&self) -> (shader: u32)
        ensures
            shader == self.spec_shader(),
    {
        self.shader
    }

    /// Takes what the backend says of the compilation: nothing where it
    /// went well, and else its log. Only a stage that compiled goes on to be
    /// linked.
    pub fn compiled(self, log: Option<String>) -> (result: Result<StageBuild, GraphicsError>)
        ensures
            log is None ==> result == Ok::<StageBuild, GraphicsError>(self),
            log matches Some(text) ==> (result matches Err(error) && error@
                == GraphicsErrorView::CompileError { stage: self.spec_stage(), log: text@ }),
    {
        match log {
            Some(text) => Err(GraphicsError::CompileError { stage: self.stage, log: text }),
            None => Ok(self),
        }
    }
}

/// A shader program that the backend was told to link.
#[derive(Debug)]
pub struct ProgramBuild {
    identifier: ShaderIdentifier,
    program: u32,
    vertex: u32,
    fragment: u32,
    required_uniforms: Vec<(String, String)>,
}

/// What a [`ProgramBuild`] holds.
pub ghost struct ProgramBuildView {
    pub identifier: ShaderIdentifier,
    /// The handle of the program object.
    pub program: u32,
    /// The handle of the vertex shader object.
    pub vertex: u32,
    /// The handle of the fragment shader object.
    pub fragment: u32,
    /// The uniforms that the two stages declare, those of the vertex stage
    /// first.
    pub required_uniforms: Seq<(Seq<char>, Seq<char>)>,
}

impl View for ProgramBuild {
    type V = ProgramBuildView;

    closed spec fn view(&self) -> ProgramBuildView {
        ProgramBuildView {
            identifier: self.identifier,
            program: self.program,
            vertex: self.vertex,
            fragment: self.fragment,
            required_uniforms: pair_views(self.required_uniforms@),
        }
    }
}

/// A linked shader program that waits for the location of one of its
/// uniforms.
pub struct UniformQuery {
    identifier: ShaderIdentifier,
    program: u32,
    required_uniforms: Vec<(String, String)>,
    uniform_locations: StringHashMap<i32>,
    next: usize,
}

/// What a [`UniformQuery`] holds.
pub ghost struct UniformQueryView {
    pub identifier: ShaderIdentifier,
    /// The handle of the program object.
    pub program: u32,
    /// The uniforms that the program declares.
    pub required_uniforms: Seq<(Seq<char>, Seq<char>)>,
    /// The number of uniforms whose location was asked for and given.
    pub answered: nat,
    /// The locations that were given, by the name of the uniform.
    pub locations: Map<Seq<char>, i32>,
}

impl View for UniformQuery {
    type V = UniformQueryView;

    closed spec fn view(&self) -> UniformQueryView {
        UniformQueryView {
            identifier: self.identifier,
            program: self.program,
            required_uniforms: pair_views(self.required_uniforms@),
            answered: self.next as nat,
            locations: self.uniform_locations@,
        }
    }
}

impl UniformQueryView {
    /// The name of the uniform whose location is asked for.
    pub open spec fn name(self) -> Seq<char> {
        self.required_uniforms[self.answered as int].0
    }

    /// A uniform is left to ask for, and the locations that were given are
    /// those of the uniforms before it.
    pub open spec fn wf(self) -> bool {
        &&& self.answered < self.required_uniforms.len()
        &&& self.locations.dom() == uniform_names(self.required_uniforms, self.answered as int)
    }

    /// The query after `location` was given for the uniform that it asks for.
    pub open spec fn answered_with(self, location: i32) -> UniformQueryView {
        UniformQueryView {
            answered: self.answered + 1,
            locations: self.locations.insert(self.name(), location),
            ..self
        }
    }
}

/// What comes of a linked program once a location was given: the next
/// question, or the finished shader.
pub enum LinkStep {
    Query(UniformQuery),
    Done(Shader),
}

/// A linked shader program with the locations of its uniforms.
pub struct Shader {
    program_id: u32,
    uniform_locations: StringHashMap<i32>,
    metadata: ShaderMetadata,
}

impl Shader {
    /// The handle of the program object.
    pub closed spec fn spec_program(&self) -> u32 {
        self.program_id
    }

    /// The location of each uniform, by its name.
    pub closed spec fn locations(&self) -> Map<Seq<char>, i32> {
        self.uniform_locations@
    }

    /// What is known of the program without asking the backend.
    pub closed spec fn spec_metadata(&self) -> ShaderMetadataView {
        self.metadata@
    }

    /// The uniforms with a location are those that the sources declare.
    pub open spec fn wf(&self) -> bool {
        self.locations().dom() == uniform_names(
            self.spec_metadata().required_uniforms,
            self.spec_metadata().required_uniforms.len() as int,
        )
    }

    /// The calls that compile `source` as the shader object `shader`.
    pub open spec fn compile_commands(shader: u32, stage: ShaderStage, source: Seq<char>) -> Seq<
        CommandView,
    > {
        seq![
            CommandView::Call(Call::CreateShader { shader, stage }),
            CommandView::ShaderSource { shader, source },
            CommandView::Call(Call::CompileShader { shader }),
        ]
    }

    /// The calls that link two shader objects into the program `program`.
    pub open spec fn link_commands(program: u32, vertex: u32, fragment: u32) -> Seq<CommandView> {
        seq![
            CommandView::Call(Call::CreateProgram { program }),
            CommandView::Call(Call::AttachShader { program, shader: vertex }),
            CommandView::Call(Call::AttachShader { program, shader: fragment }),
            CommandView::Call(Call::LinkProgram { program }),
        ]
    }

    /// The calls that follow a link that went well: the program is
    /// validated, the shader objects are detached and deleted, and the
    /// program is put to use, for its uniforms to be located.
    pub open spec fn linked_commands(program: u32, vertex: u32, fragment: u32) -> Seq<CommandView> {
        seq![
            CommandView::Call(Call::ValidateProgram { program }),
            CommandView::Call(Call::DetachShader { program, shader: vertex }),
            CommandView::Call(Call::DetachShader { program, shader: fragment }),
            CommandView::Call(Call::DeleteShader { shader: vertex }),
            CommandView::Call(Call::DeleteShader { shader: fragment }),
            CommandView::Call(Call::UseProgram { program }),
        ]
    }

    /// Scans the source of a shader for the uniforms that it declares, line
    /// by line, and gives each with its name and with the place of its
    /// declaration in the file `filename`.
    pub fn find_uniforms(source: &str, filename: &str) -> (uniforms: Vec<(String, String)>)
        ensures
            pair_views(uniforms@) == declarations(lines(source@), filename@),
    {
        find_uniforms(source, filename)
    }

    /// Has the backend compile `source` for the stage `shader_type`, as a
    /// shader object under the next free handle.
    pub fn compile_shader(source: &str, shader_type: ShaderStage, gl: &mut CommandQueue) -> (result:
        Result<u32, GraphicsError>)
        ensures
            old(gl).handles_left() >= 1 ==> result == Ok::<u32, GraphicsError>(
                old(gl).next_handle(),
            ),
            result matches Ok(shader) ==> final(gl).extends(
                *old(gl),
                Self::compile_commands(shader, shader_type, source@),
                1,
            ),
            result matches Err(error) ==> error == GraphicsError::OutOfHandles && final(gl).unchanged(
                *old(gl),
            ),
    {
        let shader = match gl.reserve_handles(1) {
            Some(shader) => shader,
            None => { return Err(GraphicsError::OutOfHandles); },
        };
        gl.call(Call::CreateShader { shader, stage: shader_type });
        gl.record(Command::ShaderSource { shader, source: source.to_owned() });
        gl.call(Call::CompileShader { shader });
        assert(gl@ =~= old(gl)@ + Self::compile_commands(shader, shader_type, source@));
        Ok(shader)
    }

    /// Starts one stage of a program from what was read of its source file
    /// `file`: nothing where the file could not be read. The source is
    /// handed to the backend for compilation and scanned for uniforms.
    pub fn load_shader(
        file: &str,
        source: Option<&str>,
        shader_type: ShaderStage,
        gl: &mut CommandQueue,
    ) -> (result: Result<StageBuild, GraphicsError>)
        ensures
            source is Some && old(gl).handles_left() >= 1 ==> result is Ok,
            source is None ==> (result matches Err(error) && error@
                == GraphicsErrorView::SourceReadError { path: file@ }),
            source is Some && old(gl).handles_left() < 1 ==> result == Err::<
                StageBuild,
                GraphicsError,
            >(GraphicsError::OutOfHandles),
            result matches Ok(build) ==> {
                &&& build.spec_shader() == old(gl).next_handle()
                &&& build.spec_stage() == shader_type
                &&& build.spec_uniforms() == declarations(lines(source->0@), file@)
                &&& final(gl).extends(
                    *old(gl),
                    Self::compile_commands(build.spec_shader(), shader_type, source->0@),
                    1,
                )
            },
            result is Err ==> final(gl).unchanged(*old(gl)),
    {
        let source = match source {
            Some(source) => source,
            None => { return Err(GraphicsError::SourceReadError { path: file.to_owned() }); },
        };
        let shader = match Self::compile_shader(source, shader_type, gl) {
            Ok(shader) => shader,
            Err(error) => { return Err(error); },
        };
        Ok(StageBuild { shader, stage: shader_type, uniforms: find_uniforms(source, file) })
    }

    /// Has the backend link a compiled vertex stage and a compiled fragment
    /// stage into the program of `identifier`.
    pub fn new(
        identifier: ShaderIdentifier,
        vertex: StageBuild,
        fragment: StageBuild,
        gl: &mut CommandQueue,
    ) -> (result: Result<ProgramBuild, GraphicsError>)
        ensures
            old(gl).handles_left() >= 1 ==> result is Ok,
            result matches Ok(build) ==> {
                &&& build@ == (ProgramBuildView {
                    identifier,
                    program: old(gl).next_handle(),
                    vertex: vertex.spec_shader(),
                    fragment: fragment.spec_shader(),
                    required_uniforms: vertex.spec_uniforms() + fragment.spec_uniforms(),
                })
                &&& final(gl).extends(
                    *old(gl),
                    Self::link_commands(
                        build@.program,
                        vertex.spec_shader(),
                        fragment.spec_shader(),
                    ),
                    1,
                )
            },
            result matches Err(error) ==> error == GraphicsError::OutOfHandles && final(gl).unchanged(
                *old(gl),
            ),
    {
        Self::new_graphical(identifier, vertex, fragment, gl)
    }

    fn new_graphical(
        identifier: ShaderIdentifier,
        vertex: StageBuild,
        fragment: StageBuild,
        gl: &mut CommandQueue,
    ) -> (result: Result<ProgramBuild, GraphicsError>)
        ensures
            old(gl).handles_left() >= 1 ==> result is Ok,
            result matches Ok(build) ==> {
                &&& build@ == (ProgramBuildView {
                    identifier,
                    program: old(gl).next_handle(),
                    vertex: vertex.spec_shader(),
                    fragment: fragment.spec_shader(),
                    required_uniforms: vertex.spec_uniforms() + fragment.spec_uniforms(),
                })
                &&& final(gl).extends(
                    *old(gl),
                    Self::link_commands(
                        build@.program,
                        vertex.spec_shader(),
                        fragment.spec_shader(),
                    ),
                    1,
                )
            },
            result matches Err(error) ==> error == GraphicsError::OutOfHandles && final(gl).unchanged(
                *old(gl),
            ),
    {
        let program = match gl.reserve_handles(1) {
            Some(program) => program,
            None => { return Err(GraphicsError::OutOfHandles); },
        };
        let StageBuild { shader: vsid, stage: _, uniforms: mut vsuniforms } = vertex;
        let StageBuild { shader: fsid, stage: _, uniforms: mut fsuniforms } = fragment;
        let ghost joined = pair_views(vsuniforms@) + pair_views(fsuniforms@);
        vsuniforms.append(&mut fsuniforms);
        let required_uniforms = vsuniforms;
        assert(pair_views(required_uniforms@) =~= joined);

        gl.call(Call::CreateProgram { program });
        gl.call(Call::AttachShader { program, shader: vsid });
        gl.call(Call::AttachShader { program, shader: fsid });
        gl.call(Call::LinkProgram { program });
        assert(gl@ =~= old(gl)@ + Self::link_commands(program, vsid, fsid));
        Ok(ProgramBuild { identifier, program, vertex: vsid, fragment: fsid, required_uniforms })
    }

    /// Makes the program the one in use.
    pub fn bind(&self, gl: &mut CommandQueue)
        ensures
            final(gl).extends(
                *old(gl),
                seq![CommandView::Call(Call::UseProgram { program: self.spec_program() })],
                0,
            ),
    {
        gl.call(Call::UseProgram { program: self.program_id });
        assert(gl@ =~= old(gl)@ + seq![
            CommandView::Call(Call::UseProgram { program: self.program_id }),
        ]);
    }

    /// Leaves no program in use.
    pub fn unbind(&self, gl: &mut CommandQueue)
        ensures
            final(gl).extends(
                *old(gl),
                seq![CommandView::Call(Call::UseProgram { program: 0 })],
                0,
            ),
    {
        gl.call(Call::UseProgram { program: 0 });
        assert(gl@ =~= old(gl)@ + seq![CommandView::Call(Call::UseProgram { program: 0 })]);
    }

    pub fn get_metadata(&self) -> (metadata: &ShaderMetadata)
        ensures
            metadata@ == self.spec_metadata(),
    {
        &self.metadata
    }

    /// The location of the uniform `name`, where the program has it.
    pub fn location(&self, name: &str) -> (location: Option<i32>)
        ensures
            location == if self.locations().contains_key(name@) {
                Some(self.locations()[name@])
            } else {
                None
            },
    {
        match self.uniform_locations.get(name) {
            Some(location) => Some(*location),
            None => None,
        }
    }

    /// The handle of the program object.
    #[verifier::when_used_as_spec(spec_program)]
    pub fn program(&self) -> (program: u32)
        ensures
            program == self.spec_program(),
    {
        self.program_id
    }

    /// Gives the program object up.
    pub fn delete(self, gl: &mut CommandQueue)
        ensures
            final(gl).extends(
                *old(gl),
                seq![CommandView::Call(Call::DeleteProgram { program: self.spec_program() })],
                0,
            ),
    {
        gl.call(Call::DeleteProgram { program: self.program_id });
        assert(gl@ =~= old(gl)@ + seq![
            CommandView::Call(Call::DeleteProgram { program: self.program_id }),
        ]);
    }
}

impl ProgramBuild {
    /// The handle of the program object, by which the backend is asked how
    /// the link went.
    pub fn program(&self) -> (program: u32)
        ensures
            program == self@.program,
    {
        self.program
    }

    /// Takes what the backend says of the link: nothing where it went well,
    /// and else its log. A program that linked is validated and put to use,
    /// and its shader objects are given up. Then the uniforms are located,
    /// one after the other, unless there is none.
    pub fn linked(self, log: Option<String>, gl: &mut CommandQueue) -> (result: Result<
        LinkStep,
        GraphicsError,
    >)
        ensures
            log matches Some(text) ==> {
                &&& result matches Err(error) && error@ == GraphicsErrorView::LinkError { log: text@ }
                &&& final(gl).unchanged(*old(gl))
            },
            log is None && self@.required_uniforms.len() > 0 ==> {
                &&& result matches Ok(LinkStep::Query(query)) && query@ == (UniformQueryView {
                    identifier: self@.identifier,
                    program: self@.program,
                    required_uniforms: self@.required_uniforms,
                    answered: 0,
                    locations: Map::empty(),
                }) && query@.wf()
                &&& final(gl).extends(
                    *old(gl),
                    Shader::linked_commands(self@.program, self@.vertex, self@.fragment),
                    0,
                )
            },
            log is None && self@.required_uniforms.len() == 0 ==> {
                &&& result matches Ok(LinkStep::Done(shader)) && shader.spec_program()
                    == self@.program && shader.locations() == Map::<Seq<char>, i32>::empty()
                    && shader.spec_metadata() == (ShaderMetadataView {
                    identifier: self@.identifier,
                    required_uniforms: self@.required_uniforms,
                    shader_type: ProgramType::Graphics,
                }) && shader.wf()
                &&& final(gl).extends(
                    *old(gl),
                    Shader::linked_commands(self@.program, self@.vertex, self@.fragment).push(
                        CommandView::Call(Call::UseProgram { program: 0 }),
                    ),
                    0,
                )
            },
    {
        match log {
            Some(text) => { return Err(GraphicsError::LinkError { log: text }); },
            None => {},
        }
        let program = self.program;
        gl.call(Call::ValidateProgram { program });
        gl.call(Call::DetachShader { program, shader: self.vertex });
        gl.call(Call::DetachShader { program, shader: self.fragment });
        gl.call(Call::DeleteShader { shader: self.vertex });
        gl.call(Call::DeleteShader { shader: self.fragment });
        gl.call(Call::UseProgram { program });
        assert(gl@ =~= old(gl)@ + Shader::linked_commands(program, self.vertex, self.fragment));
        let uniform_locations: StringHashMap<i32> = StringHashMap::new();
        assert(uniform_locations@.dom() =~= uniform_names(pair_views(self.required_uniforms@), 0));
        if self.required_uniforms.len() == 0 {
            gl.call(Call::UseProgram { program: 0 });
            assert(gl@ =~= old(gl)@ + Shader::linked_commands(
                program,
                self.vertex,
                self.fragment,
            ).push(CommandView::Call(Call::UseProgram { program: 0 })));
            Ok(
                LinkStep::Done(
                    Shader {
                        program_id: program,
                        uniform_locations,
                        metadata: ShaderMetadata {
                            identifier: self.identifier,
                            required_uniforms: self.required_uniforms,
                            shader_type: ProgramType::Graphics,
                        },
                    },
                ),
            )
        } else {
            Ok(
                LinkStep::Query(
                    UniformQuery {
                        identifier: self.identifier,
                        program,
                        required_uniforms: self.required_uniforms,
                        uniform_locations,
                        next: 0,
                    },
                ),
            )
        }
    }
}

impl UniformQuery {
    /// The handle of the program whose uniform is to be located.
    pub fn program(&self) -> (program: u32)
        ensures
            program == self@.program,
    {
        self.program
    }

    /// The name of the uniform that is to be located.
    pub fn name(&self) -> (name: &String)
        requires
            self@.wf(),
        ensures
            name@ == self@.name(),
    {
        &self.required_uniforms[self.next].0
    }

    /// Takes the location that the backend gives for the uniform asked for,
    /// whatever it is: the backend marks a uniform that it does not have by
    /// a location of its own. Then the next uniform is asked for. After the
    /// last, no program is left in use, and the shader is done.
    pub fn answer(self, location: i32, gl: &mut CommandQueue) -> (step: LinkStep)
        requires
            self@.wf(),
        ensures
            self@.answered + 1 < self@.required_uniforms.len() ==> {
                &&& step matches LinkStep::Query(query) && query@ == self@.answered_with(location)
                    && query@.wf()
                &&& final(gl).unchanged(*old(gl))
            },
            self@.answered + 1 >= self@.required_uniforms.len() ==> {
                &&& step matches LinkStep::Done(shader) && shader.spec_program() == self@.program
                    && shader.locations() == self@.answered_with(location).locations
                    && shader.spec_metadata() == (ShaderMetadataView {
                    identifier: self@.identifier,
                    required_uniforms: self@.required_uniforms,
                    shader_type: ProgramType::Graphics,
                }) && shader.wf()
                &&& final(gl).extends(
                    *old(gl),
                    seq![CommandView::Call(Call::UseProgram { program: 0 })],
                    0,
                )
            },
    {
        let UniformQuery { identifier, program, required_uniforms, mut uniform_locations, next } =
            self;
        let ghost required = pair_views(required_uniforms@);
        let ghost before = uniform_locations@;
        let count = required_uniforms.len();
        uniform_locations.insert(required_uniforms[next].0.clone(), location);
        assert(uniform_locations@.dom() =~= uniform_names(required, next + 1)) by {
            assert forall|name: Seq<char>|
                uniform_locations@.dom().contains(name) == uniform_names(
                    required,
                    next + 1,
                ).contains(name) by {
                if before.dom().contains(name) {
                    let i = choose|i: int| 0 <= i < next && i < required.len() && required[i].0 == name;
                    assert(0 <= i < next + 1 && i < required.len() && required[i].0 == name);
                }
                if uniform_names(required, next + 1).contains(name) {
                    let i = choose|i: int|
                        0 <= i < next + 1 && i < required.len() && required[i].0 == name;
                    if i < next {
                        assert(uniform_names(required, next as int).contains(name));
                    }
                }
                if name == required[next as int].0 {
                    assert(0 <= next < next + 1 && next < required.len() && required[next as int].0
                        == name);
                }
            }
        }
        if next + 1 < count {
            LinkStep::Query(
                UniformQuery {
                    identifier,
                    program,
                    required_uniforms,
                    uniform_locations,
                    next: next + 1,
                },
            )
        } else {
            gl.call(Call::UseProgram { program: 0 });
            assert(gl@ =~= old(gl)@ + seq![CommandView::Call(Call::UseProgram { program: 0 })]);
            LinkStep::Done(
                Shader {
                    program_id: program,
                    uniform_locations,
                    metadata: ShaderMetadata {
                        identifier,
                        required_uniforms,
                        shader_type: ProgramType::Graphics,
                    },
                },
            )
        }
    }
}

} // verus!
