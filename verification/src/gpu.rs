//! Bookkeeping for GPU-side texture resources: sizes, resource identifiers
//! and teardown tracking.
//!
//! The backend context carries a generation counter; each texture records
//! the generation it was created under, and its resources are released only
//! while those generations agree. This replaces a shared "context active"
//! flag with plain values, so no texture can free resources of a context
//! that has already been torn down.

use vstd::prelude::*;

use crate::blend::BlendMode;

verus! {

/// A source or destination factor of the GPU blend equation.
#[derive(Clone, Copy, PartialEq, Eq, Structural, Debug)]
pub enum BlendFactor {
    Zero,
    One,
    SrcColor,
    SrcAlpha,
    OneMinusSrcAlpha,
}

/// The factors a blend mode sets on the GPU: `(colour source, colour
/// destination, alpha source, alpha destination)`, or `None` when blending
/// is switched off entirely.
pub fn blend_equation(mode: BlendMode) -> (r: Option<(BlendFactor, BlendFactor, BlendFactor, BlendFactor)>)
    ensures
        r == match mode {
            BlendMode::Off => None::<(BlendFactor, BlendFactor, BlendFactor, BlendFactor)>,
            BlendMode::Add => Some(
                (BlendFactor::One, BlendFactor::One, BlendFactor::One, BlendFactor::One),
            ),
            BlendMode::Alpha => Some(
                (
                    BlendFactor::SrcAlpha,
                    BlendFactor::OneMinusSrcAlpha,
                    BlendFactor::SrcAlpha,
                    BlendFactor::OneMinusSrcAlpha,
                ),
            ),
            BlendMode::Multiply => Some(
                (
                    BlendFactor::Zero,
                    BlendFactor::SrcColor,
                    BlendFactor::Zero,
                    BlendFactor::SrcAlpha,
                ),
            ),
        },
{
    match mode {
        BlendMode::Off => None,
        BlendMode::Add => Some((BlendFactor::One, BlendFactor::One, BlendFactor::One, BlendFactor::One)),
        BlendMode::Alpha => Some(
            (
                BlendFactor::SrcAlpha,
                BlendFactor::OneMinusSrcAlpha,
                BlendFactor::SrcAlpha,
                BlendFactor::OneMinusSrcAlpha,
            ),
        ),
        BlendMode::Multiply => Some(
            (BlendFactor::Zero, BlendFactor::SrcColor, BlendFactor::Zero, BlendFactor::SrcAlpha),
        ),
    }
}

/// The offscreen composition surface's size tracking: `prepare` reports
/// whether the surface must be reallocated, exactly when the requested size
/// differs from the last one.
#[derive(Clone, Copy, PartialEq, Eq, Debug)]
pub struct OffscreenSurface {
    pub last_size: (u32, u32),
}

impl OffscreenSurface {
    /// A fresh surface at the engine's initial resolution.
    pub fn new() -> (s: OffscreenSurface)
        ensures
            s.last_size == (320u32, 240u32),
    {
        OffscreenSurface { last_size: (320, 240) }
    }

    /// Records a draw pass at the given size; true exactly when the caller
    /// must reallocate the surface texture.
    pub fn prepare(&mut self, width: u32, height: u32) -> (resize: bool)
        ensures
            resize == (old(self).last_size != (width, height)),
            final(self).last_size == (width, height),
    {
        let resize = self.last_size.0 != width || self.last_size.1 != height;
        self.last_size = (width, height);
        resize
    }
}

/// The lifetime counter of a rendering context.
#[derive(Clone, Copy, PartialEq, Eq, Structural, Debug)]
pub struct GpuGeneration {
    pub counter: u64,
}

impl GpuGeneration {
    pub fn new() -> (g: GpuGeneration)
        ensures
            g.counter == 0,
    {
        GpuGeneration { counter: 0 }
    }

    /// Marks the context as torn down and reborn: every texture created
    /// before this call stops being live.
    pub fn invalidate(&mut self)
        requires
            old(self).counter < u64::MAX,
        ensures
            final(self).counter == old(self).counter + 1,
    {
        self.counter = self.counter + 1;
    }
}

/// A GPU texture handle: its size, its resource identifiers, and the context
/// generation it belongs to. A zero framebuffer identifier marks a texture
/// that cannot be a render target.
#[derive(Clone, Copy, PartialEq, Eq, Structural, Debug)]
pub struct OpenGLTexture {
    pub width: u16,
    pub height: u16,
    pub texture_id: u32,
    pub framebuffer_id: u32,
    pub generation: u64,
}

impl OpenGLTexture {
    /// A texture record created under the given context generation.
    pub fn new(width: u16, height: u16, texture_id: u32, framebuffer_id: u32, gen_at: &GpuGeneration) -> (t:
        OpenGLTexture)
        ensures
            t.width == width,
            t.height == height,
            t.texture_id == texture_id,
            t.framebuffer_id == framebuffer_id,
            t.generation == gen_at.counter,
    {
        OpenGLTexture {
            width,
            height,
            texture_id,
            framebuffer_id,
            generation: gen_at.counter,
        }
    }

    /// The size of this texture.
    pub fn dimensions(&self) -> (d: (u16, u16))
        ensures
            d == (self.width, self.height),
    {
        (self.width, self.height)
    }

    /// Whether this texture has a framebuffer and can be a render target.
    pub fn is_render_target(&self) -> (r: bool)
        ensures
            r == (self.framebuffer_id != 0),
    {
        self.framebuffer_id != 0
    }

    /// Whether this texture's resources may be touched: exactly when its
    /// context generation is still the current one. A destructor must be a
    /// no-op when this is false.
    pub fn live(&self, current: &GpuGeneration) -> (r: bool)
        ensures
            r == (self.generation == current.counter),
    {
        self.generation == current.counter
    }
}

} // verus!
