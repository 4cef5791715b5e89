//! Shader programs: which stages a program is built from, where its
//! uniforms live, and what sending a value to a uniform takes.
//!
//! The types are generic in the handles that the graphics API uses for
//! programs, shaders and uniform locations, in the component type of the
//! values sent, and in the context that a program belongs to: whatever the
//! caller needs at hand to reach the graphics API later.

use std::rc::Rc;
use vstd::prelude::*;
use crate::render::gl;
use crate::util::math::{Vector2, Vector3, Vector4};

verus! {

/// Where the sources of the shaders are kept.
pub open spec fn shader_directory() -> Seq<char> {
    "assets/shaders/"@
}

/// Every type that can be sent to a uniform.
#[allow(non_camel_case_types)]
#[derive(Debug, Clone, Copy, PartialEq)]
pub enum UniformValue<T> {
    FLOAT(T),
    INT(i32),
    U_INT(u32),
    VEC4(Vector4<T>),
    VEC3(Vector3<T>),
    VEC2(Vector2<T>),
    /// A four by four matrix, column by column.
    MAT4([[T; 4]; 4]),
}

/// What the graphics API is given for a value.
#[derive(Debug, Clone, Copy, PartialEq)]
pub enum UniformUpload<T> {
    /// Nothing is sent.
    Nothing,
    /// One number.
    Float(T),
    /// Sixteen numbers: a matrix column by column, not to be transposed.
    Matrix4([T; 16]),
}

/// The sixteen entries of a matrix, column by column.
pub open spec fn flat_columns<T>(matrix: [[T; 4]; 4]) -> Seq<T> {
    Seq::new(16, |i: int| matrix[i / 4][i % 4])
}

impl<T: Copy> UniformValue<T> {
    /// Whether `upload` is what this value is sent as: a number as itself, a
    /// matrix as its sixteen entries, and any other value not at
    /// all.
    pub open spec fn sent_as(self, upload: UniformUpload<T>) -> bool {
        match self {
            UniformValue::FLOAT(value) => upload == UniformUpload::Float(value),
            UniformValue::MAT4(matrix) => upload matches UniformUpload::Matrix4(entries)
                && entries@ == flat_columns(matrix),
            _ => upload is Nothing,
        }
    }

    /// What the graphics API is given for this value.
    pub fn upload(self) -> (upload: UniformUpload<T>)
        ensures
            self.sent_as(upload),
    {
        match self {
            UniformValue::FLOAT(value) => UniformUpload::Float(value),
            UniformValue::MAT4(m) => {
                let entries: [T; 16] = [
                    m[0][0],
                    m[0][1],
                    m[0][2],
                    m[0][3],
                    m[1][0],
                    m[1][1],
                    m[1][2],
                    m[1][3],
                    m[2][0],
                    m[2][1],
                    m[2][2],
                    m[2][3],
                    m[3][0],
                    m[3][1],
                    m[3][2],
                    m[3][3],
                ];
                assert(entries@ =~= flat_columns(m));
                UniformUpload::Matrix4(entries)
            },
            _ => UniformUpload::Nothing,
        }
    }
}

/// One step of sending a value: make `program` current, then give `upload`
/// to `location`.
#[derive(Debug, Clone, Copy, PartialEq)]
pub struct UniformCommand<P, L, T> {
    pub program: P,
    pub location: L,
    pub upload: UniformUpload<T>,
}

/// What sending `uniform_value` to `location` of `program` takes.
pub fn send_uniforms<P, L, T: Copy>(uniform_value: UniformValue<T>, program: P, location: L) -> (command:
    UniformCommand<P, L, T>)
    ensures
        command.program == program,
        command.location == location,
        uniform_value.sent_as(command.upload),
{
    UniformCommand { program, location, upload: uniform_value.upload() }
}

/// The stages a program can have.
#[derive(Debug, Clone, Copy, PartialEq, Eq, Structural)]
pub enum ShaderStage {
    Vertex,
    Fragment,
    Geometry,
    Tessellation,
}

impl ShaderStage {
    /// The enumerant that names the stage to the graphics API.
    pub open spec fn shader_type(self) -> u32 {
        match self {
            ShaderStage::Vertex => gl::VERTEX_SHADER,
            ShaderStage::Fragment => gl::FRAGMENT_SHADER,
            ShaderStage::Geometry => gl::GEOMETRY_SHADER,
            ShaderStage::Tessellation => gl::TESS_CONTROL_SHADER,
        }
    }

    /// The enumerant that names the stage to the graphics API.
    pub fn gl_type(self) -> (shader_type: u32)
        ensures
            shader_type == self.shader_type(),
    {
        match self {
            ShaderStage::Vertex => gl::VERTEX_SHADER,
            ShaderStage::Fragment => gl::FRAGMENT_SHADER,
            ShaderStage::Geometry => gl::GEOMETRY_SHADER,
            ShaderStage::Tessellation => gl::TESS_CONTROL_SHADER,
        }
    }
}

/// A stage to compile: which one, and the name of the file with its source.
#[derive(Debug, Clone, PartialEq, Eq)]
pub struct StageSource {
    pub stage: ShaderStage,
    pub file_name: String,
}

impl View for StageSource {
    type V = (ShaderStage, Seq<char>);

    open spec fn view(&self) -> Self::V {
        (self.stage, self.file_name@)
    }
}

impl StageSource {
    /// Where the source of the stage is read from: the file's name inside
    /// the shader directory.
    pub fn path(&self) -> (path: String)
        ensures
            path@ == shader_directory() + self.file_name@,
    {
        String::from_str("assets/shaders/").concat(self.file_name.as_str())
    }
}

/// What can go wrong with a shader program.
#[allow(non_camel_case_types)]
#[derive(Debug, Clone, PartialEq, Eq)]
pub enum ShaderError {
    /// The vertex or the fragment shader was not named.
    MISSING_SHADER,
    /// The program did not link.
    GLSL_LINK_ERROR,
    /// A source did not parse; the parser's message.
    GLSL_PARSE_ERROR(String),
    /// A source did not compile; the compiler's log.
    GLSL_COMPILE_ERROR(String),
    /// The uniform was added before.
    UNIFORM_ALREADY_EXISTS,
    /// The program has no active uniform of that name.
    UNIFORM_LOCATION_NOT_FOUND,
}

pub type ShaderResult<T> = Result<T, ShaderError>;

const VERTEX_SHADER_INDEX: usize = 0;

const FRAGMENT_SHADER_INDEX: usize = 1;

const GEOMETRY_SHADER_INDEX: usize = 2;

const TESSELATION_SHADER_INDEX: usize = 3;

/// Collects the file names of the stages of a program.
pub struct ShaderBuilder {
    shaders: [Option<String>; 4],
}

impl View for ShaderBuilder {
    type V = Seq<Option<Seq<char>>>;

    /// The file named for the vertex, fragment, geometry and tessellation
    /// stage, in this order; four entries.
    closed spec fn view(&self) -> Self::V {
        Seq::new(
            4,
            |i: int|
                match self.shaders[i] {
                    Some(name) => Some(name@),
                    None => None,
                },
        )
    }
}

/// The stages that are compiled for the files named, in the order in which
/// they are compiled and attached: vertex, fragment, and then geometry and
/// tessellation where they were named.
pub open spec fn planned_stages(names: Seq<Option<Seq<char>>>) -> Seq<(ShaderStage, Seq<char>)> {
    seq![(ShaderStage::Vertex, names[0]->0), (ShaderStage::Fragment, names[1]->0)] + (if names[2] is Some {
        seq![(ShaderStage::Geometry, names[2]->0)]
    } else {
        seq![]
    }) + (if names[3] is Some {
        seq![(ShaderStage::Tessellation, names[3]->0)]
    } else {
        seq![]
    })
}

impl ShaderBuilder {
    /// A builder with no stage named.
    pub fn new() -> (builder: Self)
        ensures
            builder@ == seq![None::<Seq<char>>, None, None, None],
    {
        let builder = ShaderBuilder { shaders: [None, None, None, None] };
        assert(builder@ =~= seq![None::<Seq<char>>, None, None, None]);
        builder
    }

    fn with_shader(self, index: usize, filename: &str) -> (builder: Self)
        requires
            index < 4,
        ensures
            builder@ == self@.update(index as int, Some(filename@)),
    {
        let mut builder = self;
        builder.shaders[index] = Some(filename.to_owned());
        assert(builder@ =~= self@.update(index as int, Some(filename@)));
        builder
    }

    /// Names the file of the vertex shader.
    pub fn with_vert_shader(self, filename: &str) -> (builder: Self)
        ensures
            builder@ == self@.update(0, Some(filename@)),
    {
        self.with_shader(VERTEX_SHADER_INDEX, filename)
    }

    /// Names the file of the fragment shader.
    pub fn with_frag_shader(self, filename: &str) -> (builder: Self)
        ensures
            builder@ == self@.update(1, Some(filename@)),
    {
        self.with_shader(FRAGMENT_SHADER_INDEX, filename)
    }

    /// Names the file of the geometry shader.
    pub fn with_geo_shader(self, filename: &str) -> (builder: Self)
        ensures
            builder@ == self@.update(2, Some(filename@)),
    {
        self.with_shader(GEOMETRY_SHADER_INDEX, filename)
    }

    /// Names the file of the tessellation shader.
    pub fn with_tes_shader(self, filename: &str) -> (builder: Self)
        ensures
            builder@ == self@.update(3, Some(filename@)),
    {
        self.with_shader(TESSELATION_SHADER_INDEX, filename)
    }

    /// The stages to compile and attach, in order. A program needs a vertex
    /// and a fragment shader: without both there is nothing to build.
    pub fn build(self) -> (stages: ShaderResult<Vec<StageSource>>)
        ensures
            match stages {
                Ok(stages) => self@[0] is Some && self@[1] is Some && stages@.map_values(
                    |source: StageSource| source@,
                ) == planned_stages(self@),
                Err(error) => error == ShaderError::MISSING_SHADER && (self@[0] is None || self@[1]
                    is None),
            },
    {
        let mut stages: Vec<StageSource> = Vec::new();
        match (&self.shaders[VERTEX_SHADER_INDEX], &self.shaders[FRAGMENT_SHADER_INDEX]) {
            (Some(vert), Some(frag)) => {
                stages.push(StageSource { stage: ShaderStage::Vertex, file_name: vert.clone() });
                stages.push(StageSource { stage: ShaderStage::Fragment, file_name: frag.clone() });
            },
            _ => {
                return Err(ShaderError::MISSING_SHADER);
            },
        }
        if let Some(geo) = &self.shaders[GEOMETRY_SHADER_INDEX] {
            stages.push(StageSource { stage: ShaderStage::Geometry, file_name: geo.clone() });
        }
        if let Some(tes) = &self.shaders[TESSELATION_SHADER_INDEX] {
            stages.push(StageSource { stage: ShaderStage::Tessellation, file_name: tes.clone() });
        }
        assert(stages@.map_values(|source: StageSource| source@) =~= planned_stages(self@));
        Ok(stages)
    }
}

/// What compiling a stage came to: the shader where it compiled, and the
/// compiler's log as an error where it did not. `compile_log` is `None` for a
/// shader that compiled.
pub fn load_shader<S>(shader: S, compile_log: Option<String>) -> (loaded: ShaderResult<S>)
    ensures
        loaded == match compile_log {
            None => Ok::<S, ShaderError>(shader),
            Some(log) => Err(ShaderError::GLSL_COMPILE_ERROR(log)),
        },
{
    match compile_log {
        None => Ok(shader),
        Some(log) => Err(ShaderError::GLSL_COMPILE_ERROR(log)),
    }
}

/// What linking came to: an error for a program that did not link.
pub fn link_program(linked: bool) -> (checked: ShaderResult<()>)
    ensures
        checked == if linked {
            Ok::<(), ShaderError>(())
        } else {
            Err(ShaderError::GLSL_LINK_ERROR)
        },
{
    if linked {
        Ok(())
    } else {
        Err(ShaderError::GLSL_LINK_ERROR)
    }
}

/// The map that a list of names and locations stands for: every name leads
/// to the location that it was listed with last.
pub open spec fn locations_of<L>(pairs: Seq<(Seq<char>, L)>) -> Map<Seq<char>, L>
    decreases pairs.len(),
{
    if pairs.len() == 0 {
        Map::empty()
    } else {
        locations_of(pairs.drop_last()).insert(pairs.last().0, pairs.last().1)
    }
}

/// A name that is listed leads to the location of its last listing.
pub proof fn lemma_last_listing_wins<L>(pairs: Seq<(Seq<char>, L)>, name: Seq<char>, at: int)
    requires
        0 <= at < pairs.len(),
        pairs[at].0 == name,
        forall|later: int| at < later < pairs.len() ==> pairs[later].0 != name,
    ensures
        locations_of(pairs).contains_key(name),
        locations_of(pairs)[name] == pairs[at].1,
    decreases pairs.len(),
{
    if at < pairs.len() - 1 {
        lemma_last_listing_wins(pairs.drop_last(), name, at);
    }
}

/// A name that is not listed leads nowhere.
pub proof fn lemma_unlisted_is_absent<L>(pairs: Seq<(Seq<char>, L)>, name: Seq<char>)
    requires
        forall|at: int| 0 <= at < pairs.len() ==> pairs[at].0 != name,
    ensures
        !locations_of(pairs).contains_key(name),
    decreases pairs.len(),
{
    if pairs.len() > 0 {
        lemma_unlisted_is_absent(pairs.drop_last(), name);
    }
}

/// `Rc::clone`, taken on trust: the new pointer shares the value of the one
/// it was cloned from.
#[verifier::external_body]
fn share<C>(render_context: &Rc<C>) -> (shared: Rc<C>)
    ensures
        shared == *render_context,
{
    Rc::clone(render_context)
}

/// The handle through which one uniform of one program is updated.
#[derive(Debug, PartialEq)]
pub struct ShaderUniformHandler<P, L, C> {
    pub program: P,
    pub uniform: L,
    pub render_context: Rc<C>,
}

impl<P: Copy, L: Copy, C> Clone for ShaderUniformHandler<P, L, C> {
    /// A second handle to the same uniform, sharing the context.
    fn clone(&self) -> (copy: Self)
        ensures
            copy == *self,
    {
        ShaderUniformHandler {
            program: self.program,
            uniform: self.uniform,
            render_context: share(&self.render_context),
        }
    }
}

impl<P: Copy, L: Copy, C> ShaderUniformHandler<P, L, C> {
    /// What sending `value` to the uniform takes.
    pub fn update_uniform<T: Copy>(&self, value: UniformValue<T>) -> (command: UniformCommand<P, L, T>)
        ensures
            command.program == self.program,
            command.location == self.uniform,
            value.sent_as(command.upload),
    {
        send_uniforms(value, self.program, self.uniform)
    }
}

/// Something that keeps a uniform of a program up to date by itself, once
/// it was handed the handle to do so.
pub trait Uniform<P, L, C>: Sized {
    /// What being handed `handle` does to the value. Says nothing unless
    /// the implementation states it.
    open spec fn handed(before: Self, handle: ShaderUniformHandler<P, L, C>, after: Self) -> bool {
        true
    }

    /// Hands over the handle of the uniform.
    fn provide_handle(&mut self, handle: ShaderUniformHandler<P, L, C>)
        ensures
            Self::handed(*old(self), handle, *final(self)),
    ;
}

/// A place for a handle: being handed one, it keeps it and lets go of the
/// one it had.
impl<P, L, C> Uniform<P, L, C> for Option<ShaderUniformHandler<P, L, C>> {
    open spec fn handed(before: Self, handle: ShaderUniformHandler<P, L, C>, after: Self) -> bool {
        after == Some(handle)
    }

    fn provide_handle(&mut self, handle: ShaderUniformHandler<P, L, C>) {
        *self = Some(handle);
    }
}

/// What deleting a program deletes: these shaders in this order, then the
/// program.
pub struct ShaderDeletion<P, S> {
    pub shaders: Vec<S>,
    pub program: P,
}

/// A linked program: its handle, the shaders it was linked from, the
/// context it belongs to, and the location of each of its active uniforms.
pub struct Shader<P, S, L, C> {
    program: P,
    vert_shader: S,
    frag_shader: S,
    geo_shader: Option<S>,
    tes_shader: Option<S>,
    render_context: Rc<C>,
    uniform_map: Vec<(String, L)>,
}

impl<P: Copy, S: Copy, L: Copy, C> Shader<P, S, L, C> {
    /// The handle of the program.
    pub closed spec fn handle(&self) -> P {
        self.program
    }

    /// The context that the program belongs to.
    pub closed spec fn context(&self) -> Rc<C> {
        self.render_context
    }

    /// The shaders of the program: vertex, fragment, and then geometry and
    /// tessellation where it has them.
    pub closed spec fn shaders(&self) -> Seq<S> {
        seq![self.vert_shader, self.frag_shader] + (match self.geo_shader {
            Some(geo) => seq![geo],
            None => seq![],
        }) + (match self.tes_shader {
            Some(tes) => seq![tes],
            None => seq![],
        })
    }

    spec fn listed(&self) -> Seq<(Seq<char>, L)> {
        self.uniform_map@.map_values(|pair: (String, L)| (pair.0@, pair.1))
    }

    /// The location of each active uniform, by name.
    pub closed spec fn uniforms(&self) -> Map<Seq<char>, L> {
        locations_of(self.listed())
    }

    /// The handle for the uniform at `location`.
    pub open spec fn handler_at(&self, location: L) -> ShaderUniformHandler<P, L, C> {
        ShaderUniformHandler {
            program: self.handle(),
            uniform: location,
            render_context: self.context(),
        }
    }

    /// Takes over a program that was just linked from these shaders in
    /// `render_context`, with its active uniforms as they were enumerated.
    pub fn new(
        render_context: &Rc<C>,
        program: P,
        vert_shader: S,
        frag_shader: S,
        geo_shader: Option<S>,
        tes_shader: Option<S>,
        uniforms: Vec<(String, L)>,
    ) -> (shader: Self)
        ensures
            shader.handle() == program,
            shader.context() == *render_context,
            shader.shaders() == seq![vert_shader, frag_shader] + (match geo_shader {
                Some(geo) => seq![geo],
                None => seq![],
            }) + (match tes_shader {
                Some(tes) => seq![tes],
                None => seq![],
            }),
            shader.uniforms() == locations_of(
                uniforms@.map_values(|pair: (String, L)| (pair.0@, pair.1)),
            ),
    {
        Shader {
            program,
            vert_shader,
            frag_shader,
            geo_shader,
            tes_shader,
            render_context: share(render_context),
            uniform_map: uniforms,
        }
    }

    /// The handle of the program: what is made current to draw with it.
    pub fn bind(&self) -> (program: P)
        ensures
            program == self.handle(),
    {
        self.program
    }

    /// The context that the program belongs to.
    pub fn render_context(&self) -> (render_context: &Rc<C>)
        ensures
            *render_context == self.context(),
    {
        &self.render_context
    }

    /// The location of the uniform called `uniform_name`.
    pub fn get_uniform_location(&self, uniform_name: &str) -> (location: ShaderResult<L>)
        ensures
            match location {
                Ok(location) => self.uniforms().contains_key(uniform_name@)
                    && self.uniforms()[uniform_name@] == location,
                Err(error) => error == ShaderError::UNIFORM_LOCATION_NOT_FOUND
                    && !self.uniforms().contains_key(uniform_name@),
            },
    {
        let wanted = uniform_name.to_owned();
        let mut i: usize = self.uniform_map.len();
        while i > 0
            invariant
                i <= self.uniform_map.len(),
                wanted@ == uniform_name@,
                forall|later: int|
                    i <= later < self.uniform_map.len() ==> self.listed()[later].0 != uniform_name@,
            decreases i,
        {
            i -= 1;
            if self.uniform_map[i].0 == wanted {
                proof {
                    lemma_last_listing_wins(self.listed(), uniform_name@, i as int);
                }
                return Ok(self.uniform_map[i].1);
            }
        }
        proof {
            lemma_unlisted_is_absent(self.listed(), uniform_name@);
        }
        Err(ShaderError::UNIFORM_LOCATION_NOT_FOUND)
    }

    /// The handle through which the uniform called `uniform_name` is
    /// updated.
    pub fn uniform_handler(&self, uniform_name: &str) -> (handler: ShaderResult<
        ShaderUniformHandler<P, L, C>,
    >)
        ensures
            match handler {
                Ok(handler) => self.uniforms().contains_key(uniform_name@) && handler
                    == self.handler_at(self.uniforms()[uniform_name@]),
                Err(error) => error == ShaderError::UNIFORM_LOCATION_NOT_FOUND
                    && !self.uniforms().contains_key(uniform_name@),
            },
    {
        let uniform_location = self.get_uniform_location(uniform_name)?;
        Ok(
            ShaderUniformHandler {
                program: self.program,
                uniform: uniform_location,
                render_context: share(&self.render_context),
            },
        )
    }

    /// Hands `uniform` the handle of the uniform called `uniform_name`.
    /// Without such a uniform, `uniform` is left alone.
    pub fn add_uniform<T: Uniform<P, L, C>>(&mut self, uniform_name: &str, uniform: &mut T) -> (added:
        ShaderResult<()>)
        ensures
            *final(self) == *old(self),
            match added {
                Ok(_) => old(self).uniforms().contains_key(uniform_name@) && T::handed(
                    *old(uniform),
                    old(self).handler_at(old(self).uniforms()[uniform_name@]),
                    *final(uniform),
                ),
                Err(error) => error == ShaderError::UNIFORM_LOCATION_NOT_FOUND && !old(
                    self,
                ).uniforms().contains_key(uniform_name@) && *final(uniform) == *old(uniform),
            },
    {
        let handler = self.uniform_handler(uniform_name)?;
        uniform.provide_handle(handler);
        Ok(())
    }

    /// What sending `value` to the uniform called `uniform_name` takes.
    pub fn send_uniform<T: Copy>(&mut self, uniform_name: &str, value: UniformValue<T>) -> (command:
        ShaderResult<UniformCommand<P, L, T>>)
        ensures
            *final(self) == *old(self),
            match command {
                Ok(command) => old(self).uniforms().contains_key(uniform_name@) && command.program
                    == old(self).handle() && command.location == old(self).uniforms()[uniform_name@]
                    && value.sent_as(command.upload),
                Err(error) => error == ShaderError::UNIFORM_LOCATION_NOT_FOUND && !old(
                    self,
                ).uniforms().contains_key(uniform_name@),
            },
    {
        let uniform_location = self.get_uniform_location(uniform_name)?;
        Ok(send_uniforms(value, self.program, uniform_location))
    }

    /// What deleting the program deletes: its shaders, then itself.
    pub fn delete(&self) -> (deletion: ShaderDeletion<P, S>)
        ensures
            deletion.shaders@ == self.shaders(),
            deletion.program == self.handle(),
    {
        let mut shaders: Vec<S> = Vec::new();
        shaders.push(self.vert_shader);
        shaders.push(self.frag_shader);
        if self.geo_shader.is_some() {
            shaders.push(self.geo_shader.unwrap());
        }
        if self.tes_shader.is_some() {
            shaders.push(self.tes_shader.unwrap());
        }
        assert(shaders@ =~= self.shaders());
        ShaderDeletion { shaders, program: self.program }
    }
}

} // verus!
