//! Vertex buffers, vertex arrays and framebuffers: what was loaded into them,
//! which of their slots are taken, and how they are to be drawn.
//!
//! Each type is generic in the handle that the graphics API uses for the
//! object, and never looks inside it.

use vstd::prelude::*;
use crate::render::gl;
use crate::util::bitflag::BitFlag16;
use crate::util::math;
use crate::util::math::{to_signed, Vector2, Vector3, Vector4};
use crate::util::text;
use crate::util::text::decimal_string;

verus! {

/// The component types a vertex buffer can hold.
#[derive(Clone, Copy, Debug, PartialEq, Eq, Structural)]
pub enum DataType {
    Int,
    UnsignedInt,
    Byte,
    UnsignedByte,
    Short,
    UnsignedShort,
    Float,
}

impl DataType {
    /// The enumerant that names this type to the graphics API.
    pub open spec fn code(self) -> u32 {
        match self {
            DataType::Int => gl::INT,
            DataType::UnsignedInt => gl::UNSIGNED_INT,
            DataType::Byte => gl::BYTE,
            DataType::UnsignedByte => gl::UNSIGNED_BYTE,
            DataType::Short => gl::SHORT,
            DataType::UnsignedShort => gl::UNSIGNED_SHORT,
            DataType::Float => gl::FLOAT,
        }
    }

    /// The enumerant that names this type to the graphics API.
    pub fn gl_code(self) -> (code: u32)
        ensures
            code == self.code(),
    {
        match self {
            DataType::Int => gl::INT,
            DataType::UnsignedInt => gl::UNSIGNED_INT,
            DataType::Byte => gl::BYTE,
            DataType::UnsignedByte => gl::UNSIGNED_BYTE,
            DataType::Short => gl::SHORT,
            DataType::UnsignedShort => gl::UNSIGNED_SHORT,
            DataType::Float => gl::FLOAT,
        }
    }

    /// No two component types share an enumerant, and none is `NONE`.
    pub proof fn lemma_code_injective(a: DataType, b: DataType)
        ensures
            a.code() == b.code() ==> a == b,
            a.code() != gl::NONE,
    {
    }
}

/// The components of `vecs` one after the other, two for each vector.
pub open spec fn interleaved2<T>(vecs: Seq<Vector2<T>>) -> Seq<T> {
    Seq::new(2 * vecs.len(), |i: int| vecs[i / 2].components()[i % 2])
}

/// The components of `vecs` one after the other, three for each vector.
pub open spec fn interleaved3<T>(vecs: Seq<Vector3<T>>) -> Seq<T> {
    Seq::new(3 * vecs.len(), |i: int| vecs[i / 3].components()[i % 3])
}

/// The components of `vecs` one after the other, four for each vector.
pub open spec fn interleaved4<T>(vecs: Seq<Vector4<T>>) -> Seq<T> {
    Seq::new(4 * vecs.len(), |i: int| vecs[i / 4].components()[i % 4])
}

/// A component count as the buffer records it: the low 32 bits.
pub open spec fn recorded_count(len: nat) -> u32 {
    (len % 0x1_0000_0000) as u32
}

fn count_of(len: usize) -> (count: u32)
    ensures
        count == recorded_count(len as nat),
{
    let wide: u64 = len as u64;
    assert(wide as u32 == wide % 0x1_0000_0000u64) by (bit_vector);
    #[verifier::truncate]
    (wide as u32)
}

/// Lays the components of `vecs` out for upload.
pub fn interleave2<T: Copy>(vecs: &Vec<Vector2<T>>) -> (data: Vec<T>)
    ensures
        data@ == interleaved2(vecs@),
{
    let mut data: Vec<T> = Vec::new();
    let mut i: usize = 0;
    while i < vecs.len()
        invariant
            i <= vecs.len(),
            data@ == interleaved2(vecs@.take(i as int)),
        decreases vecs.len() - i,
    {
        let vec = vecs[i];
        data.push(vec.x);
        data.push(vec.y);
        i += 1;
        assert(data@ =~= interleaved2(vecs@.take(i as int)));
    }
    assert(vecs@.take(i as int) =~= vecs@);
    data
}

/// Lays the components of `vecs` out for upload.
pub fn interleave3<T: Copy>(vecs: &Vec<Vector3<T>>) -> (data: Vec<T>)
    ensures
        data@ == interleaved3(vecs@),
{
    let mut data: Vec<T> = Vec::new();
    let mut i: usize = 0;
    while i < vecs.len()
        invariant
            i <= vecs.len(),
            data@ == interleaved3(vecs@.take(i as int)),
        decreases vecs.len() - i,
    {
        let vec = vecs[i];
        data.push(vec.x);
        data.push(vec.y);
        data.push(vec.z);
        i += 1;
        assert(data@ =~= interleaved3(vecs@.take(i as int)));
    }
    assert(vecs@.take(i as int) =~= vecs@);
    data
}

/// Lays the components of `vecs` out for upload.
pub fn interleave4<T: Copy>(vecs: &Vec<Vector4<T>>) -> (data: Vec<T>)
    ensures
        data@ == interleaved4(vecs@),
{
    let mut data: Vec<T> = Vec::new();
    let mut i: usize = 0;
    while i < vecs.len()
        invariant
            i <= vecs.len(),
            data@ == interleaved4(vecs@.take(i as int)),
        decreases vecs.len() - i,
    {
        let vec = vecs[i];
        data.push(vec.x);
        data.push(vec.y);
        data.push(vec.z);
        data.push(vec.w);
        i += 1;
        assert(data@ =~= interleaved4(vecs@.take(i as int)));
    }
    assert(vecs@.take(i as int) =~= vecs@);
    data
}

/// A vertex buffer: the handle of the GPU buffer together with what is known
/// of its contents.
pub struct VBO<B> {
    buffer: B,
    gl_type: Option<DataType>,
    amount: u32,
    grouping: u32,
}

impl<B> VBO<B> {
    #[verifier::type_invariant]
    spec fn grouping_in_range(&self) -> bool {
        1 <= self.grouping <= 4
    }

    /// The handle of the GPU buffer.
    pub closed spec fn handle(&self) -> B {
        self.buffer
    }

    /// The component type of what was loaded last, if anything was.
    pub closed spec fn loaded_type(&self) -> Option<DataType> {
        self.gl_type
    }

    /// The recorded number of components.
    pub closed spec fn loaded_amount(&self) -> u32 {
        self.amount
    }

    /// How many components make up one vertex attribute.
    pub closed spec fn group_size(&self) -> u32 {
        self.grouping
    }

    /// Takes over a buffer that was just created: nothing loaded, and one
    /// component to the attribute.
    pub fn new(buffer: B) -> (vbo: Self)
        ensures
            vbo.handle() == buffer,
            vbo.loaded_type() is None,
            vbo.loaded_amount() == 0,
            vbo.group_size() == 1,
    {
        VBO { buffer, gl_type: None, amount: 0, grouping: 1 }
    }

    /// The handle of the GPU buffer.
    pub fn buffer(&self) -> (buffer: &B)
        ensures
            *buffer == self.handle(),
    {
        &self.buffer
    }

    /// Records a single four-component vector and returns its components in
    /// upload order. The amount becomes 1; the grouping is left alone.
    pub fn load_vec4<T>(&mut self, vec: Vector4<T>, data_type: DataType) -> (data: [T; 4])
        ensures
            data@ == vec.components(),
            final(self).handle() == old(self).handle(),
            final(self).loaded_type() == Some(data_type),
            final(self).loaded_amount() == 1,
            final(self).group_size() == old(self).group_size(),
    {
        let data: [T; 4] = [vec.x, vec.y, vec.z, vec.w];
        self.set_type(data_type);
        proof {
            use_type_invariant(&*self);
        }
        self.amount = 1;
        assert(data@ =~= vec.components());
        data
    }

    /// Records a list of four-component vectors and returns their components
    /// in upload order. The amount becomes the number of components, the
    /// grouping 4.
    pub fn load_vec4s<T: Copy>(&mut self, vecs: Vec<Vector4<T>>, data_type: DataType) -> (data: Vec<T>)
        ensures
            data@ == interleaved4(vecs@),
            final(self).handle() == old(self).handle(),
            final(self).loaded_type() == Some(data_type),
            final(self).loaded_amount() == recorded_count(data@.len()),
            final(self).group_size() == 4,
    {
        proof {
            use_type_invariant(&*self);
        }
        let data = interleave4(&vecs);
        self.amount = count_of(data.len());
        self.set_type(data_type);
        self.grouping = 4;
        data
    }

    /// Records a single three-component vector and returns its components in
    /// upload order. The amount becomes 3; the grouping is left alone.
    pub fn load_vec3<T>(&mut self, vec: Vector3<T>, data_type: DataType) -> (data: [T; 3])
        ensures
            data@ == vec.components(),
            final(self).handle() == old(self).handle(),
            final(self).loaded_type() == Some(data_type),
            final(self).loaded_amount() == 3,
            final(self).group_size() == old(self).group_size(),
    {
        let data: [T; 3] = [vec.x, vec.y, vec.z];
        self.set_type(data_type);
        proof {
            use_type_invariant(&*self);
        }
        self.amount = 3;
        assert(data@ =~= vec.components());
        data
    }

    /// Records a list of three-component vectors and returns their components
    /// in upload order. The amount becomes the number of components, the
    /// grouping 3.
    pub fn load_vec3s<T: Copy>(&mut self, vecs: Vec<Vector3<T>>, data_type: DataType) -> (data: Vec<T>)
        ensures
            data@ == interleaved3(vecs@),
            final(self).handle() == old(self).handle(),
            final(self).loaded_type() == Some(data_type),
            final(self).loaded_amount() == recorded_count(data@.len()),
            final(self).group_size() == 3,
    {
        proof {
            use_type_invariant(&*self);
        }
        let data = interleave3(&vecs);
        self.amount = count_of(data.len());
        self.set_type(data_type);
        self.grouping = 3;
        data
    }

    /// Records a single two-component vector and returns its components in
    /// upload order. The grouping becomes 2; the amount is left alone.
    pub fn load_vec2<T>(&mut self, vec: Vector2<T>, data_type: DataType) -> (data: [T; 2])
        ensures
            data@ == vec.components(),
            final(self).handle() == old(self).handle(),
            final(self).loaded_type() == Some(data_type),
            final(self).loaded_amount() == old(self).loaded_amount(),
            final(self).group_size() == 2,
    {
        let data: [T; 2] = [vec.x, vec.y];
        self.set_type(data_type);
        self.grouping = 2;
        assert(data@ =~= vec.components());
        data
    }

    /// Records a list of two-component vectors and returns their components
    /// in upload order. The amount becomes the number of components, the
    /// grouping 2.
    pub fn load_vec2s<T: Copy>(&mut self, vecs: Vec<Vector2<T>>, data_type: DataType) -> (data: Vec<T>)
        ensures
            data@ == interleaved2(vecs@),
            final(self).handle() == old(self).handle(),
            final(self).loaded_type() == Some(data_type),
            final(self).loaded_amount() == recorded_count(data@.len()),
            final(self).group_size() == 2,
    {
        proof {
            use_type_invariant(&*self);
        }
        let data = interleave2(&vecs);
        self.amount = count_of(data.len());
        self.set_type(data_type);
        self.grouping = 2;
        data
    }

    /// Records the component type of what the buffer holds.
    pub fn set_type(&mut self, data_type: DataType)
        ensures
            final(self).handle() == old(self).handle(),
            final(self).loaded_type() == Some(data_type),
            final(self).loaded_amount() == old(self).loaded_amount(),
            final(self).group_size() == old(self).group_size(),
    {
        proof {
            use_type_invariant(&*self);
        }
        self.gl_type = Some(data_type);
    }

    /// How many components make up one vertex attribute: one to four.
    pub fn grouping(&self) -> (grouping: u32)
        ensures
            grouping == self.group_size(),
            1 <= grouping <= 4,
    {
        proof {
            use_type_invariant(self);
        }
        self.grouping
    }

    /// The recorded number of components.
    pub fn amount(&self) -> (amount: u32)
        ensures
            amount == self.loaded_amount(),
    {
        self.amount
    }

    /// The enumerant of the component type, or `NONE` while nothing is loaded.
    pub fn data_type(&self) -> (code: u32)
        ensures
            code == match self.loaded_type() {
                Some(data_type) => data_type.code(),
                None => gl::NONE,
            },
    {
        match self.gl_type {
            Some(data_type) => data_type.gl_code(),
            None => gl::NONE,
        }
    }
}

/// What a vertex attribute is bound with: the attribute's index, the number
/// of components to the vertex, and the enumerant of their type.
#[derive(Clone, Copy, Debug, PartialEq, Eq, Structural)]
pub struct AttribPointer {
    pub index: u32,
    pub size: i32,
    pub data_type: u32,
}

/// How a vertex array is drawn, as triangles either way.
#[derive(Clone, Copy, Debug, PartialEq, Eq, Structural)]
pub enum DrawCall {
    /// Through the index buffer, `count` indices of unsigned 32-bit integers.
    Elements { count: i32 },
    /// Straight from the vertex buffers, `count` vertices from `first` on.
    Arrays { first: i32, count: i32 },
}

/// What drawing a vertex array takes: the attributes to enable, in this
/// order, and then the draw call.
pub struct RenderPlan {
    pub attribs: Vec<u32>,
    pub draw: DrawCall,
}

/// A vertex array: the handle of the GPU object, the attributes that were
/// given a buffer, and how many indices its index buffer holds.
pub struct VAO<A> {
    array: A,
    enabled_attribs: BitFlag16,
    element_array: bool,
    render_count: u32,
}

impl<A> VAO<A> {
    /// The handle of the GPU object.
    pub closed spec fn handle(&self) -> A {
        self.array
    }

    /// The attribute indices that a buffer was added for.
    pub closed spec fn enabled(&self) -> Set<int> {
        self.enabled_attribs@
    }

    /// Whether an index buffer was added.
    pub closed spec fn indexed(&self) -> bool {
        self.element_array
    }

    /// The recorded number of indices.
    pub closed spec fn count(&self) -> u32 {
        self.render_count
    }

    /// Takes over a vertex array that was just created: no attribute, no
    /// index buffer, nothing to draw.
    pub fn new(array: A) -> (vao: Self)
        ensures
            vao.handle() == array,
            vao.enabled() == Set::<int>::empty(),
            !vao.indexed(),
            vao.count() == 0,
    {
        VAO { array, enabled_attribs: BitFlag16::new(), element_array: false, render_count: 0 }
    }

    /// The handle of the GPU object.
    pub fn array(&self) -> (array: &A)
        ensures
            *array == self.handle(),
    {
        &self.array
    }

    /// Gives attribute `index` the buffer `vbo` and returns what the
    /// attribute is to be bound with.
    pub fn add_vbo<B>(&mut self, index: u16, vbo: &VBO<B>) -> (pointer: AttribPointer)
        requires
            index < BitFlag16::max(),
            vbo.loaded_type() is Some,
        ensures
            final(self).handle() == old(self).handle(),
            final(self).enabled() == old(self).enabled().insert(index as int),
            final(self).indexed() == old(self).indexed(),
            final(self).count() == old(self).count(),
            pointer.index == index,
            pointer.size == vbo.group_size(),
            pointer.data_type == vbo.loaded_type()->0.code(),
    {
        self.enabled_attribs.mark(index);
        let grouping = vbo.grouping();
        AttribPointer { index: index as u32, size: grouping as i32, data_type: vbo.data_type() }
    }

    /// Records that an index buffer with these indices was added.
    #[allow(non_snake_case)]
    pub fn addIndexBuffer(&mut self, indices: &Vec<i32>)
        ensures
            final(self).handle() == old(self).handle(),
            final(self).enabled() == old(self).enabled(),
            final(self).indexed(),
            final(self).count() == recorded_count(indices@.len()),
    {
        self.element_array = true;
        self.render_count = count_of(indices.len());
    }

    /// What drawing takes: every attribute that was given a buffer, in
    /// ascending order, and then the draw call.
    pub fn render(&self) -> (plan: RenderPlan)
        ensures
            forall|i: int, j: int|
                0 <= i < j < plan.attribs@.len() ==> plan.attribs@[i] < plan.attribs@[j],
            forall|a: u32| plan.attribs@.contains(a) <==> self.enabled().contains(a as int),
            plan.draw == if self.indexed() {
                DrawCall::Elements { count: math::as_signed(self.count()) as i32 }
            } else {
                DrawCall::Arrays { first: 0, count: math::as_signed(self.count()) as i32 }
            },
    {
        let mut attribs: Vec<u32> = Vec::new();
        let mut i: u16 = 0;
        while i < BitFlag16::max()
            invariant
                i <= 16,
                forall|a: int, b: int| 0 <= a < b < attribs@.len() ==> attribs@[a] < attribs@[b],
                forall|a: int| 0 <= a < attribs@.len() ==> attribs@[a] < i,
                forall|a: u32|
                    attribs@.contains(a) <==> (a < i && self.enabled_attribs@.contains(a as int)),
            decreases 16 - i,
        {
            if self.enabled_attribs.is_marked(i) {
                let ghost before = attribs@;
                attribs.push(i as u32);
                proof {
                    assert(attribs@[before.len() as int] == i);
                    assert forall|a: u32|
                        attribs@.contains(a) <==> (a < i + 1 && self.enabled_attribs@.contains(
                            a as int,
                        )) by {
                        if attribs@.contains(a) {
                            let k = choose|k: int| 0 <= k < attribs@.len() && attribs@[k] == a;
                            if k < before.len() {
                                assert(before[k] == a);
                                assert(before.contains(a));
                            }
                        }
                        if a < i && self.enabled_attribs@.contains(a as int) {
                            assert(before.contains(a));
                            let k = choose|k: int| 0 <= k < before.len() && before[k] == a;
                            assert(attribs@[k] == a);
                        }
                    }
                }
            }
            i += 1;
        }
        proof {
            assert forall|a: u32|
                attribs@.contains(a) <==> self.enabled_attribs@.contains(a as int) by {
                if self.enabled_attribs@.contains(a as int) {
                    self.enabled_attribs.lemma_marked_in_range(a as int);
                }
            }
        }
        let count = to_signed(self.render_count);
        let draw = if self.element_array {
            DrawCall::Elements { count }
        } else {
            DrawCall::Arrays { first: 0, count }
        };
        RenderPlan { attribs, draw }
    }
}

/// The highest colour attachment a framebuffer has.
pub const HIGHEST_COLOR_ATTACHMENT: usize = 31;

/// The message for a colour attachment beyond the highest.
pub open spec fn above_highest_text(color_attachment: nat) -> Seq<char> {
    "'"@ + text::decimal(color_attachment) + "' is above the highest color attachment (31)!"@
}

/// The message for a colour attachment that already holds a texture.
pub open spec fn in_use_text(color_attachment: nat) -> Seq<char> {
    "Color Attachment '"@ + text::decimal(color_attachment) + "' is already in use."@
}

fn above_highest_message(color_attachment: usize) -> (message: String)
    ensures
        message@ == above_highest_text(color_attachment as nat),
{
    let number = decimal_string(color_attachment);
    String::from_str("'").concat(number.as_str()).concat(
        "' is above the highest color attachment (31)!",
    )
}

fn in_use_message(color_attachment: usize) -> (message: String)
    ensures
        message@ == in_use_text(color_attachment as nat),
{
    let number = decimal_string(color_attachment);
    String::from_str("Color Attachment '").concat(number.as_str()).concat("' is already in use.")
}

/// A framebuffer: the handle of the GPU object and the texture behind each
/// of its thirty-two colour attachments.
pub struct FBO<F, T> {
    color_attachments: [Option<T>; 32],
    fbo: F,
}

impl<F, T: Copy> FBO<F, T> {
    /// The handle of the GPU object.
    pub closed spec fn handle(&self) -> F {
        self.fbo
    }

    /// The texture behind each colour attachment, `None` where there is
    /// none; thirty-two entries.
    pub closed spec fn attachments(&self) -> Seq<Option<T>> {
        self.color_attachments@
    }

    /// Whether `color_attachment` can be given a texture, and if not, why.
    pub open spec fn attachment_refused(&self, color_attachment: usize) -> Option<Seq<char>> {
        if color_attachment > HIGHEST_COLOR_ATTACHMENT {
            Some(above_highest_text(color_attachment as nat))
        } else if self.attachments()[color_attachment as int] is Some {
            Some(in_use_text(color_attachment as nat))
        } else {
            None
        }
    }

    /// Takes over a framebuffer that was just created: no attachment yet.
    pub fn new(fbo: F) -> (made: Self)
        ensures
            made.handle() == fbo,
            made.attachments().len() == 32,
            forall|i: int| 0 <= i < 32 ==> made.attachments()[i] is None,
    {
        FBO { fbo, color_attachments: [None;32] }
    }

    /// The handle of the GPU object.
    pub fn fbo(&self) -> (fbo: &F)
        ensures
            *fbo == self.handle(),
    {
        &self.fbo
    }

    /// The texture behind `attachment`, if it is an attachment and has one.
    pub fn color_attachment(&self, attachment: usize) -> (texture: Option<T>)
        ensures
            self.attachments().len() == 32,
            texture == if attachment <= HIGHEST_COLOR_ATTACHMENT {
                self.attachments()[attachment as int]
            } else {
                None
            },
    {
        if attachment > HIGHEST_COLOR_ATTACHMENT {
            None
        } else {
            self.color_attachments[attachment]
        }
    }

    /// Checks that `color_attachment` can still be given a texture, and
    /// returns the attachment point to attach it at.
    pub fn attachment_point(&self, color_attachment: usize) -> (point: Result<u32, String>)
        ensures
            match point {
                Ok(point) => self.attachment_refused(color_attachment) is None && point
                    == gl::COLOR_ATTACHMENT0 + color_attachment,
                Err(message) => self.attachment_refused(color_attachment) == Some(message@),
            },
    {
        if color_attachment > HIGHEST_COLOR_ATTACHMENT {
            return Err(above_highest_message(color_attachment));
        }
        if self.color_attachments[color_attachment].is_some() {
            Err(in_use_message(color_attachment))
        } else {
            Ok(gl::COLOR_ATTACHMENT0 + color_attachment as u32)
        }
    }

    /// Puts `texture` behind `color_attachment`, or refuses with a message
    /// and no change where that is not an attachment or is taken.
    pub fn with_texture_attachment(self, texture: T, color_attachment: usize) -> (made: Result<
        Self,
        String,
    >)
        ensures
            match made {
                Ok(made) => self.attachment_refused(color_attachment) is None && made.handle()
                    == self.handle() && made.attachments() == self.attachments().update(
                    color_attachment as int,
                    Some(texture),
                ),
                Err(message) => self.attachment_refused(color_attachment) == Some(message@),
            },
    {
        if color_attachment > HIGHEST_COLOR_ATTACHMENT {
            return Err(above_highest_message(color_attachment));
        }
        if self.color_attachments[color_attachment].is_some() {
            Err(in_use_message(color_attachment))
        } else {
            let mut made = self;
            made.color_attachments[color_attachment] = Some(texture);
            Ok(made)
        }
    }

    /// The texture to bind for `attachment`.
    pub fn enable_color_attachment(&self, attachment: usize) -> (texture: T)
        requires
            attachment <= HIGHEST_COLOR_ATTACHMENT,
            self.attachments()[attachment as int] is Some,
        ensures
            self.attachments()[attachment as int] == Some(texture),
    {
        self.color_attachments[attachment].unwrap()
    }
}

} // verus!
