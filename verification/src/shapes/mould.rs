//! Moulds: a shape paired with a custom shader.
//!
//! A mould overrides the rendering of one shape without touching the
//! screen's ambient shader selection: its program index and uniform
//! snapshot are used for that draw alone.

use vstd::prelude::*;

use crate::shaders::{ShaderInfo, UniformValue};
use crate::shapes::Shape;

verus! {

/// A shape together with the shader information it is to be drawn with.
pub struct Mould<'a, S: Shape> {
    pub shape: &'a S,
    pub shader: ShaderInfo,
}

impl<'a, S: Shape> Mould<'a, S> {
    /// Pair a shape with a custom shader.
    pub fn new(shape: &'a S, shader: ShaderInfo) -> (r: Mould<'a, S>)
        ensures
            r.shape == shape,
            r.shader == shader,
    {
        Mould { shape, shader }
    }

    /// The paired shape.
    pub fn get_shape(&self) -> (r: &S)
        ensures
            r == self.shape,
    {
        self.shape
    }

    /// The paired shader information.
    pub fn get_shader(&self) -> (r: &ShaderInfo)
        ensures
            r == &self.shader,
    {
        &self.shader
    }

    /// Record a uniform value for the paired shader; the new entry
    /// shadows any earlier entry of the same name.
    pub fn set(&mut self, uni_name: &str, value: UniformValue)
        ensures
            final(self).shape == old(self).shape,
            final(self).shader.shader_idx == old(self).shader.shader_idx,
            final(self).shader.texture_list@ == old(self).shader.texture_list@,
            final(self).shader.uniforms@.len() == old(self).shader.uniforms@.len() + 1,
            final(self).shader.uniforms@.subrange(
                0,
                old(self).shader.uniforms@.len() as int,
            ) == old(self).shader.uniforms@,
            final(self).shader.uniforms@.last().0@ == uni_name@,
            final(self).shader.uniforms@.last().1 == value,
    {
        self.shader.set(uni_name, value)
    }
}

} // verus!
