//! Models read from Wavefront OBJ files: how the vertices that the parser
//! hands over are laid out in GPU buffers.
//!
//! The vertex types are generic in their component type, like the vectors
//! they are turned into.

use vstd::prelude::*;
use crate::render::buffer;
use crate::render::buffer::{AttribPointer, DataType, VAO, VBO};
use crate::util::math;
use crate::util::math::{to_signed, Vector2, Vector3};

verus! {

/// A vertex with a position and a normal.
#[derive(Clone, Copy, Debug, PartialEq)]
pub struct Vertex<T> {
    pub position: [T; 3],
    pub normal: [T; 3],
}

/// A vertex with a position, a normal and a texture coordinate.
#[derive(Clone, Copy, Debug, PartialEq)]
pub struct TexturedVertex<T> {
    pub position: [T; 3],
    pub normal: [T; 3],
    pub texture: [T; 3],
}

/// Why a model file could not be read.
#[derive(Clone, Copy, Debug, PartialEq, Eq, Structural)]
pub enum ObjFailure {
    /// The file could not be read.
    Io,
    /// An integer in the file could not be parsed.
    ParseInt,
    /// A number in the file could not be parsed.
    ParseFloat,
    /// The file was read, but does not hold what was asked of it.
    Load,
}

/// What to do once a file was read for textured vertices.
#[derive(Clone, Copy, Debug, PartialEq, Eq, Structural)]
pub enum LoadStep {
    /// Build the model from the textured vertices.
    UseTextured,
    /// Read the file once more, for vertices without texture coordinates.
    RetryPlain,
    /// Nothing can be built.
    GiveUp,
}

/// The outcome of the first attempt decides: a file that was read is used, a
/// file that only lacks what textured vertices need is read again without
/// them, and any other failure ends the loading.
pub fn after_textured_attempt(failure: Option<ObjFailure>) -> (step: LoadStep)
    ensures
        step == match failure {
            None => LoadStep::UseTextured,
            Some(ObjFailure::Load) => LoadStep::RetryPlain,
            Some(_) => LoadStep::GiveUp,
        },
{
    match failure {
        None => LoadStep::UseTextured,
        Some(ObjFailure::Load) => LoadStep::RetryPlain,
        Some(_) => LoadStep::GiveUp,
    }
}

/// The three coordinates as a vector.
pub open spec fn vec3_of<T>(coordinates: [T; 3]) -> Vector3<T> {
    Vector3 { x: coordinates[0], y: coordinates[1], z: coordinates[2] }
}

/// The first two coordinates as a vector.
pub open spec fn vec2_of<T>(coordinates: [T; 3]) -> Vector2<T> {
    Vector2 { x: coordinates[0], y: coordinates[1] }
}

/// The attribute arrays of a model before they are laid out for upload.
pub struct MeshArrays<T> {
    pub verts: Vec<Vector3<T>>,
    pub uvs: Vec<Vector2<T>>,
    pub norms: Vec<Vector3<T>>,
    pub indices: Vec<i32>,
}

/// The indices as the index buffer holds them: each one read as signed.
pub open spec fn signed_indices(indices: Seq<u32>) -> Seq<i32> {
    Seq::new(indices.len(), |i: int| math::as_signed(indices[i]) as i32)
}

fn convert_indices(indices: &Vec<u32>) -> (signed: Vec<i32>)
    ensures
        signed@ == signed_indices(indices@),
{
    let mut signed: Vec<i32> = Vec::new();
    let mut i: usize = 0;
    while i < indices.len()
        invariant
            i <= indices.len(),
            signed@ == signed_indices(indices@.take(i as int)),
        decreases indices.len() - i,
    {
        signed.push(to_signed(indices[i]));
        i += 1;
        assert(signed@ =~= signed_indices(indices@.take(i as int)));
    }
    assert(indices@.take(i as int) =~= indices@);
    signed
}

/// The arrays of a model whose vertices carry no texture coordinate: every
/// texture coordinate is `(zero, zero)`, and the normals are the positions
/// once more.
pub open spec fn plain_arrays_of<T>(vertices: Seq<Vertex<T>>, indices: Seq<u32>, zero: T) -> (
    Seq<Vector3<T>>,
    Seq<Vector2<T>>,
    Seq<Vector3<T>>,
    Seq<i32>,
) {
    (
        Seq::new(vertices.len(), |i: int| vec3_of(vertices[i].position)),
        Seq::new(vertices.len(), |i: int| Vector2 { x: zero, y: zero }),
        Seq::new(vertices.len(), |i: int| vec3_of(vertices[i].position)),
        signed_indices(indices),
    )
}

/// The arrays of a model with textured vertices: the texture coordinates
/// are the first two of each vertex's three, and the normals are the
/// positions once more.
pub open spec fn textured_arrays_of<T>(vertices: Seq<TexturedVertex<T>>, indices: Seq<u32>) -> (
    Seq<Vector3<T>>,
    Seq<Vector2<T>>,
    Seq<Vector3<T>>,
    Seq<i32>,
) {
    (
        Seq::new(vertices.len(), |i: int| vec3_of(vertices[i].position)),
        Seq::new(vertices.len(), |i: int| vec2_of(vertices[i].texture)),
        Seq::new(vertices.len(), |i: int| vec3_of(vertices[i].position)),
        signed_indices(indices),
    )
}

impl<T> View for MeshArrays<T> {
    type V = (Seq<Vector3<T>>, Seq<Vector2<T>>, Seq<Vector3<T>>, Seq<i32>);

    /// Positions, texture coordinates, normals and indices.
    open spec fn view(&self) -> Self::V {
        (self.verts@, self.uvs@, self.norms@, self.indices@)
    }
}

/// Splits vertices without texture coordinates into attribute arrays.
pub fn plain_arrays<T: Copy>(vertices: &Vec<Vertex<T>>, indices: &Vec<u32>, zero: T) -> (arrays:
    MeshArrays<T>)
    ensures
        arrays@ == plain_arrays_of(vertices@, indices@, zero),
{
    let mut verts: Vec<Vector3<T>> = Vec::new();
    let mut uvs: Vec<Vector2<T>> = Vec::new();
    let mut norms: Vec<Vector3<T>> = Vec::new();
    let mut i: usize = 0;
    while i < vertices.len()
        invariant
            i <= vertices.len(),
            verts@ == Seq::new(i as nat, |k: int| vec3_of(vertices@[k].position)),
            uvs@ == Seq::new(i as nat, |k: int| Vector2 { x: zero, y: zero }),
            norms@ == Seq::new(i as nat, |k: int| vec3_of(vertices@[k].position)),
        decreases vertices.len() - i,
    {
        let tv = vertices[i];
        verts.push(Vector3::new(tv.position[0], tv.position[1], tv.position[2]));
        uvs.push(Vector2::new(zero, zero));
        norms.push(Vector3::new(tv.position[0], tv.position[1], tv.position[2]));
        i += 1;
        assert(verts@ =~= Seq::new(i as nat, |k: int| vec3_of(vertices@[k].position)));
        assert(uvs@ =~= Seq::new(i as nat, |k: int| Vector2 { x: zero, y: zero }));
        assert(norms@ =~= Seq::new(i as nat, |k: int| vec3_of(vertices@[k].position)));
    }
    let indices = convert_indices(indices);
    MeshArrays { verts, uvs, norms, indices }
}

/// Splits textured vertices into attribute arrays.
pub fn textured_arrays<T: Copy>(vertices: &Vec<TexturedVertex<T>>, indices: &Vec<u32>) -> (arrays:
    MeshArrays<T>)
    ensures
        arrays@ == textured_arrays_of(vertices@, indices@),
{
    let mut verts: Vec<Vector3<T>> = Vec::new();
    let mut uvs: Vec<Vector2<T>> = Vec::new();
    let mut norms: Vec<Vector3<T>> = Vec::new();
    let mut i: usize = 0;
    while i < vertices.len()
        invariant
            i <= vertices.len(),
            verts@ == Seq::new(i as nat, |k: int| vec3_of(vertices@[k].position)),
            uvs@ == Seq::new(i as nat, |k: int| vec2_of(vertices@[k].texture)),
            norms@ == Seq::new(i as nat, |k: int| vec3_of(vertices@[k].position)),
        decreases vertices.len() - i,
    {
        let tv = vertices[i];
        verts.push(Vector3::new(tv.position[0], tv.position[1], tv.position[2]));
        uvs.push(Vector2::new(tv.texture[0], tv.texture[1]));
        norms.push(Vector3::new(tv.position[0], tv.position[1], tv.position[2]));
        i += 1;
        assert(verts@ =~= Seq::new(i as nat, |k: int| vec3_of(vertices@[k].position)));
        assert(uvs@ =~= Seq::new(i as nat, |k: int| vec2_of(vertices@[k].texture)));
        assert(norms@ =~= Seq::new(i as nat, |k: int| vec3_of(vertices@[k].position)));
    }
    let indices = convert_indices(indices);
    MeshArrays { verts, uvs, norms, indices }
}

/// The attribute that the positions are bound to.
pub const POSITION_ATTRIBUTE: u16 = 0;

/// The attribute that the texture coordinates are bound to.
pub const TEXTURE_ATTRIBUTE: u16 = 1;

/// The attribute that the normals are bound to.
pub const NORMAL_ATTRIBUTE: u16 = 2;

/// The GPU objects that a model needs, freshly created: one vertex array
/// and a buffer for each attribute.
pub struct ModelHandles<A, B> {
    pub vao: A,
    pub verts: B,
    pub uvs: B,
    pub norms: B,
}

/// What has to be sent to the GPU for a model, in this order: the
/// components of each attribute buffer, the index buffer, and what each
/// attribute is bound with.
pub struct ModelUpload<T> {
    pub verts: Vec<T>,
    pub uvs: Vec<T>,
    pub norms: Vec<T>,
    pub indices: Vec<i32>,
    pub pointers: [AttribPointer; 3],
}

/// A model on the GPU: its vertex array and its attribute buffers.
pub struct OBJModel<A, B> {
    pub vao: VAO<A>,
    pub verts: VBO<B>,
    pub uvs: VBO<B>,
    pub norms: VBO<B>,
}

/// What is deleted with a model: the vertex array, then these two buffers.
pub struct ModelDeletion<A, B> {
    pub vao: A,
    pub buffers: [B; 2],
}

impl<A, B> OBJModel<A, B> {
    /// Whether this is the model that `handles`, a component type and the
    /// lengths of the four arrays give: each buffer records its array with
    /// that type, positions and normals in threes and texture coordinates in
    /// twos, and the vertex array has the three attributes and the index
    /// buffer.
    pub open spec fn holds(
        &self,
        handles: ModelHandles<A, B>,
        data_type: DataType,
        verts: nat,
        uvs: nat,
        norms: nat,
        indices: nat,
    ) -> bool {
        &&& self.verts.handle() == handles.verts
        &&& self.verts.loaded_type() == Some(data_type)
        &&& self.verts.loaded_amount() == buffer::recorded_count(3 * verts)
        &&& self.verts.group_size() == 3
        &&& self.uvs.handle() == handles.uvs
        &&& self.uvs.loaded_type() == Some(data_type)
        &&& self.uvs.loaded_amount() == buffer::recorded_count(2 * uvs)
        &&& self.uvs.group_size() == 2
        &&& self.norms.handle() == handles.norms
        &&& self.norms.loaded_type() == Some(data_type)
        &&& self.norms.loaded_amount() == buffer::recorded_count(3 * norms)
        &&& self.norms.group_size() == 3
        &&& self.vao.handle() == handles.vao
        &&& self.vao.enabled() == set![0int, 1int, 2int]
        &&& self.vao.indexed()
        &&& self.vao.count() == buffer::recorded_count(indices)
    }

    /// Lays `arrays` out in the buffers of `handles` and binds positions,
    /// texture coordinates and normals to attributes 0, 1 and 2.
    pub fn assemble<T: Copy>(
        handles: ModelHandles<A, B>,
        arrays: MeshArrays<T>,
        data_type: DataType,
    ) -> (made: (Self, ModelUpload<T>))
        ensures
            made.0.holds(
                handles,
                data_type,
                arrays.verts@.len(),
                arrays.uvs@.len(),
                arrays.norms@.len(),
                arrays.indices@.len(),
            ),
            made.1.verts@ == buffer::interleaved3(arrays.verts@),
            made.1.uvs@ == buffer::interleaved2(arrays.uvs@),
            made.1.norms@ == buffer::interleaved3(arrays.norms@),
            made.1.indices@ == arrays.indices@,
            made.1.pointers@ == seq![
                AttribPointer { index: 0, size: 3, data_type: data_type.code() },
                AttribPointer { index: 1, size: 2, data_type: data_type.code() },
                AttribPointer { index: 2, size: 3, data_type: data_type.code() },
            ],
    {
        let ModelHandles { vao, verts, uvs, norms } = handles;
        let MeshArrays { verts: positions, uvs: coordinates, norms: normals, indices } = arrays;
        let mut vert_vbo = VBO::new(verts);
        let vert_data = vert_vbo.load_vec3s(positions, data_type);
        let mut uv_vbo = VBO::new(uvs);
        let uv_data = uv_vbo.load_vec2s(coordinates, data_type);
        let mut norm_vbo = VBO::new(norms);
        let norm_data = norm_vbo.load_vec3s(normals, data_type);
        let mut vao = VAO::new(vao);
        vao.addIndexBuffer(&indices);
        let vert_pointer = vao.add_vbo(POSITION_ATTRIBUTE, &vert_vbo);
        let uv_pointer = vao.add_vbo(TEXTURE_ATTRIBUTE, &uv_vbo);
        let norm_pointer = vao.add_vbo(NORMAL_ATTRIBUTE, &norm_vbo);
        let pointers = [vert_pointer, uv_pointer, norm_pointer];
        proof {
            assert(vao.enabled() =~= set![0int, 1int, 2int]);
            assert(pointers@ =~= seq![
                AttribPointer { index: 0, size: 3, data_type: data_type.code() },
                AttribPointer { index: 1, size: 2, data_type: data_type.code() },
                AttribPointer { index: 2, size: 3, data_type: data_type.code() },
            ]);
        }
        (
            OBJModel { vao, verts: vert_vbo, uvs: uv_vbo, norms: norm_vbo },
            ModelUpload {
                verts: vert_data,
                uvs: uv_data,
                norms: norm_data,
                indices,
                pointers,
            },
        )
    }

    /// What deleting the model deletes: the vertex array, the buffer of the
    /// positions and the buffer of the texture coordinates.
    pub fn delete(&self) -> (deletion: ModelDeletion<A, B>) where A: Copy, B: Copy
        ensures
            deletion.vao == self.vao.handle(),
            deletion.buffers@ == seq![self.verts.handle(), self.uvs.handle()],
    {
        let buffers = [*self.verts.buffer(), *self.uvs.buffer()];
        assert(buffers@ =~= seq![self.verts.handle(), self.uvs.handle()]);
        ModelDeletion { vao: *self.vao.array(), buffers }
    }
}

/// Builds a model from vertices without texture coordinates.
pub fn vao_load_obj_vertex<A, B, T: Copy>(
    handles: ModelHandles<A, B>,
    vertices: &Vec<Vertex<T>>,
    indices: &Vec<u32>,
    zero: T,
    data_type: DataType,
) -> (made: (OBJModel<A, B>, ModelUpload<T>))
    ensures
        ({
            let (verts, uvs, norms, signed) = plain_arrays_of(vertices@, indices@, zero);
            &&& made.0.holds(
                handles,
                data_type,
                vertices@.len(),
                vertices@.len(),
                vertices@.len(),
                indices@.len(),
            )
            &&& made.1.verts@ == buffer::interleaved3(verts)
            &&& made.1.uvs@ == buffer::interleaved2(uvs)
            &&& made.1.norms@ == buffer::interleaved3(norms)
            &&& made.1.indices@ == signed
            &&& made.1.pointers@ == seq![
                AttribPointer { index: 0, size: 3, data_type: data_type.code() },
                AttribPointer { index: 1, size: 2, data_type: data_type.code() },
                AttribPointer { index: 2, size: 3, data_type: data_type.code() },
            ]
        }),
{
    let arrays = plain_arrays(vertices, indices, zero);
    OBJModel::assemble(handles, arrays, data_type)
}

/// Builds a model from textured vertices.
pub fn vao_load_obj_textured_vertex<A, B, T: Copy>(
    handles: ModelHandles<A, B>,
    vertices: &Vec<TexturedVertex<T>>,
    indices: &Vec<u32>,
    data_type: DataType,
) -> (made: (OBJModel<A, B>, ModelUpload<T>))
    ensures
        ({
            let (verts, uvs, norms, signed) = textured_arrays_of(vertices@, indices@);
            &&& made.0.holds(
                handles,
                data_type,
                vertices@.len(),
                vertices@.len(),
                vertices@.len(),
                indices@.len(),
            )
            &&& made.1.verts@ == buffer::interleaved3(verts)
            &&& made.1.uvs@ == buffer::interleaved2(uvs)
            &&& made.1.norms@ == buffer::interleaved3(norms)
            &&& made.1.indices@ == signed
            &&& made.1.pointers@ == seq![
                AttribPointer { index: 0, size: 3, data_type: data_type.code() },
                AttribPointer { index: 1, size: 2, data_type: data_type.code() },
                AttribPointer { index: 2, size: 3, data_type: data_type.code() },
            ]
        }),
{
    let arrays = textured_arrays(vertices, indices);
    OBJModel::assemble(handles, arrays, data_type)
}

} // verus!
