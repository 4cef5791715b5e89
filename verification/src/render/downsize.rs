//! Rendering at a reduced resolution: the scene is drawn into a small
//! offscreen texture, as many pixels high as the pixel density says, and
//! blown up to the window afterwards.

use vstd::prelude::*;

verus! {

/// The width and height that the offscreen textures are first made with.
pub const STARTING_DIM: u32 = 500;

/// The pixel density that is used for a window of the given height: at
/// least one, and no more than the height.
pub open spec fn clamped_density(pixel_density: u32, height: u32) -> u32 {
    let at_least_one = if pixel_density < 1 {
        1u32
    } else {
        pixel_density
    };
    if at_least_one > height {
        height
    } else {
        at_least_one
    }
}

/// The offscreen target of the downsize pass: its GPU objects, the pixel
/// density, and the window size that its textures were last sized for.
pub struct Downsize<F, T> {
    pixel_density: u32,
    last_width: u32,
    last_height: u32,
    fbo: F,
    color_attachment: T,
    depth_attachment: T,
    should_recalc: bool,
}

impl<F, T> Downsize<F, T> {
    /// The pixel density: the height of the offscreen textures.
    pub closed spec fn density(&self) -> u32 {
        self.pixel_density
    }

    /// The width and height of the window that the textures were last sized
    /// for.
    pub closed spec fn last_size(&self) -> (u32, u32) {
        (self.last_width, self.last_height)
    }

    /// Whether the textures have to be sized anew even if the window keeps
    /// its size.
    pub closed spec fn pending(&self) -> bool {
        self.should_recalc
    }

    /// The framebuffer, its colour texture and its depth texture.
    pub closed spec fn handles(&self) -> (F, T, T) {
        (self.fbo, self.color_attachment, self.depth_attachment)
    }

    /// Takes over the GPU objects of a pass that was just set up. The
    /// textures count as sized for no window yet.
    pub fn new(fbo: F, color_attachment: T, depth_attachment: T, pixel_density: u32) -> (pass: Self)
        ensures
            pass.handles() == (fbo, color_attachment, depth_attachment),
            pass.density() == pixel_density,
            pass.last_size() == (0u32, 0u32),
            !pass.pending(),
    {
        Downsize {
            pixel_density,
            last_width: 0,
            last_height: 0,
            fbo,
            color_attachment,
            depth_attachment,
            should_recalc: false,
        }
    }

    /// The framebuffer of the pass.
    pub fn fbo(&self) -> (fbo: &F)
        ensures
            *fbo == self.handles().0,
    {
        &self.fbo
    }

    /// The colour texture of the pass.
    pub fn color_attachment(&self) -> (texture: &T)
        ensures
            *texture == self.handles().1,
    {
        &self.color_attachment
    }

    /// The depth texture of the pass.
    pub fn depth_attachment(&self) -> (texture: &T)
        ensures
            *texture == self.handles().2,
    {
        &self.depth_attachment
    }

    /// The pixel density.
    pub fn pixel_density(&self) -> (pixel_density: u32)
        ensures
            pixel_density == self.density(),
    {
        self.pixel_density
    }

    /// Starts a frame for a window that is `height` pixels high: brings the
    /// pixel density into `1..=height` and returns it. It is the height of
    /// the offscreen textures for this frame.
    pub fn render(&mut self, height: u32) -> (pixel_density: u32)
        ensures
            pixel_density == clamped_density(old(self).density(), height),
            final(self).density() == pixel_density,
            final(self).last_size() == old(self).last_size(),
            final(self).pending() == old(self).pending(),
            final(self).handles() == old(self).handles(),
    {
        if self.pixel_density < 1 {
            self.pixel_density = 1
        }
        if self.pixel_density > height {
            self.pixel_density = height
        }
        self.pixel_density
    }

    /// Whether the textures have to be sized anew for a window of
    /// `new_width` by `new_height`: they do if the window changed its size
    /// since they were sized last, or if the pixel density was edited. The
    /// size is remembered if so.
    pub fn calc_texture_size(&mut self, new_width: u32, new_height: u32) -> (resize: bool)
        ensures
            resize == (old(self).last_size() != (new_width, new_height) || old(self).pending()),
            final(self).last_size() == if resize {
                (new_width, new_height)
            } else {
                old(self).last_size()
            },
            !final(self).pending(),
            final(self).density() == old(self).density(),
            final(self).handles() == old(self).handles(),
    {
        if new_width != self.last_width || new_height != self.last_height || self.should_recalc {
            self.last_width = new_width;
            self.last_height = new_height;
            self.should_recalc = false;
            true
        } else {
            false
        }
    }

    /// Takes in the pixel density as the debug panel left it. An edit makes
    /// the textures due for sizing anew.
    pub fn debug(&mut self, pixel_density: u32)
        ensures
            final(self).density() == pixel_density,
            final(self).pending() == (old(self).pending() || pixel_density != old(self).density()),
            final(self).last_size() == old(self).last_size(),
            final(self).handles() == old(self).handles(),
    {
        let beginning = self.pixel_density;
        self.pixel_density = pixel_density;
        if beginning != self.pixel_density {
            self.should_recalc = true
        }
    }
}

/// The clamped pixel density lies between one and the height of the window
/// whenever the window has a height, and clamping twice changes nothing.
pub proof fn lemma_clamped_density(pixel_density: u32, height: u32)
    ensures
        height >= 1 ==> 1 <= clamped_density(pixel_density, height) <= height,
        height == 0 ==> clamped_density(pixel_density, height) == 0,
        1 <= pixel_density <= height ==> clamped_density(pixel_density, height) == pixel_density,
        clamped_density(clamped_density(pixel_density, height), height) == clamped_density(
            pixel_density,
            height,
        ) || height == 0,
{
}

} // verus!
