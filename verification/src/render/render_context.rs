//! What is bound while a group of things is drawn: a shader program and up
//! to sixteen textures, one to a texture unit.

use vstd::prelude::*;

verus! {

/// How many texture units a render context has.
pub const TEXTURE_UNITS: usize = 16;

/// What drawing with a render context binds first: the program, if there is
/// one, and then each texture at its unit, in ascending order of the units.
pub struct Bindings<P, T> {
    pub program: Option<P>,
    pub textures: Vec<(u8, T)>,
}

/// A shader program and the texture of each texture unit.
pub struct RenderContext<P, T> {
    shader_program: Option<P>,
    textures: [Option<T>; 16],
}

impl<P: Copy, T: Copy> RenderContext<P, T> {
    /// The shader program, if one was set.
    pub closed spec fn program(&self) -> Option<P> {
        self.shader_program
    }

    /// The texture of each unit, `None` where there is none; sixteen
    /// entries.
    pub closed spec fn units(&self) -> Seq<Option<T>> {
        self.textures@
    }

    /// A render context with no program and no texture.
    pub fn new() -> (context: Self)
        ensures
            context.program() is None,
            context.units().len() == 16,
            forall|i: int| 0 <= i < 16 ==> context.units()[i] is None,
    {
        RenderContext { shader_program: None, textures: [None;16] }
    }

    /// The texture at unit `location`, if it is a unit and has one.
    pub fn texture(&self, location: usize) -> (texture: Option<T>)
        ensures
            self.units().len() == 16,
            texture == if location < TEXTURE_UNITS {
                self.units()[location as int]
            } else {
                None
            },
    {
        if location < TEXTURE_UNITS {
            self.textures[location]
        } else {
            None
        }
    }

    /// Puts `texture` at the free unit `location`.
    pub fn add_texture(self, texture: T, location: usize) -> (context: Result<Self, String>)
        requires
            location < TEXTURE_UNITS,
            self.units()[location as int] is None,
        ensures
            context matches Ok(context) && context.program() == self.program() && context.units()
                == self.units().update(location as int, Some(texture)),
    {
        let mut context = self;
        context.textures[location] = Some(texture);
        Ok(context)
    }

    /// What drawing binds first.
    pub fn render(&self) -> (bindings: Bindings<P, T>)
        ensures
            bindings.program == self.program(),
            forall|i: int, j: int|
                0 <= i < j < bindings.textures@.len() ==> bindings.textures@[i].0
                    < bindings.textures@[j].0,
            forall|unit: u8, texture: T|
                bindings.textures@.contains((unit, texture)) <==> (unit < 16 && self.units()[unit as int]
                    == Some(texture)),
    {
        let mut textures: Vec<(u8, T)> = Vec::new();
        let mut i: usize = 0;
        while i < TEXTURE_UNITS
            invariant
                i <= 16,
                self.textures@.len() == 16,
                forall|a: int, b: int|
                    0 <= a < b < textures@.len() ==> textures@[a].0 < textures@[b].0,
                forall|a: int| 0 <= a < textures@.len() ==> textures@[a].0 < i,
                forall|unit: u8, texture: T|
                    textures@.contains((unit, texture)) <==> (unit < i && self.textures@[unit as int]
                        == Some(texture)),
            decreases 16 - i,
        {
            if let Some(found) = self.textures[i] {
                let ghost before = textures@;
                textures.push((i as u8, found));
                proof {
                    assert(textures@[before.len() as int] == (i as u8, found));
                    assert forall|unit: u8, texture: T|
                        textures@.contains((unit, texture)) <==> (unit < i + 1
                            && self.textures@[unit as int] == Some(texture)) by {
                        if textures@.contains((unit, texture)) {
                            let k = choose|k: int|
                                0 <= k < textures@.len() && textures@[k] == (unit, texture);
                            if k < before.len() {
                                assert(before[k] == (unit, texture));
                                assert(before.contains((unit, texture)));
                            }
                        }
                        if unit < i && self.textures@[unit as int] == Some(texture) {
                            assert(before.contains((unit, texture)));
                            let k = choose|k: int|
                                0 <= k < before.len() && before[k] == (unit, texture);
                            assert(textures@[k] == (unit, texture));
                        }
                    }
                }
            }
            i += 1;
        }
        Bindings { program: self.shader_program, textures }
    }
}

} // verus!
